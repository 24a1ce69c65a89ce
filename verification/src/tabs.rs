//! A cursor over a fixed row of tab titles, wrapping at both ends.

use vstd::prelude::*;

verus! {

/// The tab row: its titles and the index of the active tab.
pub struct TabsState {
    pub titles: Vec<&'static str>,
    pub index: usize,
}

impl TabsState {
    /// The active tab stays inside the row.
    pub open spec fn wf(self) -> bool {
        (self.index as int) < self.titles@.len()
    }

    /// A tab row starting on its first title.
    pub fn new(titles: Vec<&'static str>) -> (t: TabsState)
        requires
            titles@.len() > 0,
        ensures
            t.wf(),
            t.titles == titles,
            t.index == 0,
    {
        TabsState { titles, index: 0 }
    }

    /// Activates the next tab, wrapping from the last to the first.
    pub fn next(&mut self)
        requires
            old(self).wf(),
        ensures
            final(self).wf(),
            final(self).titles == old(self).titles,
            final(self).index as int == if old(self).index as int == old(self).titles@.len() - 1 {
                0int
            } else {
                old(self).index + 1
            },
    {
        if self.index >= self.titles.len() - 1 {
            self.index = 0;
        } else {
            self.index = self.index + 1;
        }
    }

    /// Activates the previous tab, wrapping from the first to the last.
    pub fn previous(&mut self)
        requires
            old(self).wf(),
        ensures
            final(self).wf(),
            final(self).titles == old(self).titles,
            final(self).index as int == if old(self).index == 0 {
                old(self).titles@.len() - 1
            } else {
                old(self).index - 1
            },
    {
        if self.index > 0 {
            self.index = self.index - 1;
        } else {
            self.index = self.titles.len() - 1;
        }
    }
}

} // verus!
