//! The snapshot of one directory: its entries and the selection cursor.
//!
//! A listing is rebuilt wholesale whenever the browsed path changes or an
//! entry is deleted; the host hands the enumerated children in as plain
//! [`ChildEntry`] values and the listing derives display names and full
//! paths from them.

use vstd::prelude::*;
use vstd::string::StringExecFns;

verus! {

/// A cursor over a list: the index of the selected element.
pub struct State {
    pub selected: usize,
}

impl State {
    pub fn new() -> (s: State)
        ensures
            s.selected == 0,
    {
        State { selected: 0 }
    }

    pub fn select(&mut self, index: usize)
        ensures
            final(self).selected == index,
    {
        self.selected = index;
    }
}

/// One entry of a listing: a file or directory discovered under the
/// browsed path.  The display `name` carries a trailing separator
/// exactly when the entry is a directory; `path` is the entry's full
/// path, usable directly for further filesystem calls; `size` is the
/// byte count (for a directory, the recursive sum of contained file
/// sizes).
pub struct File {
    pub name: String,
    pub is_dir: bool,
    pub size: u64,
    pub path: String,
}

impl File {
    /// The base name: the display name without the trailing separator.
    pub open spec fn base(self) -> Seq<char> {
        if self.is_dir {
            self.name@.drop_last()
        } else {
            self.name@
        }
    }

    /// Well-formed as an entry listed under the directory at `dir`:
    /// directories carry the separator suffix, and the full path is the
    /// directory path followed by the base name.
    pub open spec fn wf_in(self, dir: Seq<char>) -> bool {
        &&& (self.is_dir ==> self.name@.len() > 0 && self.name@.last() == '/')
        &&& self.path@ == dir + self.base()
    }

    pub fn new(name: String, is_dir: bool, size: u64, path: String) -> (f: File)
        ensures
            f.name == name,
            f.is_dir == is_dir,
            f.size == size,
            f.path == path,
    {
        File { name, is_dir, size, path }
    }
}

/// One immediate child of a directory, as the host's enumeration reports
/// it: the bare name (no separator), whether it is a directory, and its
/// size in bytes.
pub struct ChildEntry {
    pub name: String,
    pub is_dir: bool,
    pub size: u64,
}

/// The ordered snapshot of one directory's entries plus the selection
/// cursor.  Order is the enumeration order the host reported, not
/// necessarily sorted.
pub struct Files {
    pub state: State,
    pub files: Vec<File>,
}

impl Files {
    /// The cursor stays inside the listing; an empty listing keeps it
    /// at zero.
    pub open spec fn wf(self) -> bool {
        if self.files@.len() == 0 {
            self.state.selected == 0
        } else {
            (self.state.selected as int) < self.files@.len()
        }
    }

    /// Every entry is well-formed for the directory at `dir`.
    pub open spec fn entries_wf(self, dir: Seq<char>) -> bool {
        forall|i: int| 0 <= i < self.files@.len() ==> (#[trigger] self.files@[i]).wf_in(dir)
    }

    /// How an entry is derived from a reported child: directory flag and
    /// size carried over, the display name separator-suffixed for
    /// directories, and the full path joined under `dir`.
    pub open spec fn entry_matches(f: File, c: ChildEntry, dir: Seq<char>) -> bool {
        &&& f.is_dir == c.is_dir
        &&& f.size == c.size
        &&& f.name@ == if c.is_dir {
            c.name@ + seq!['/']
        } else {
            c.name@
        }
        &&& f.path@ == dir + c.name@
    }

    /// Builds the listing of the directory at `path` from its reported
    /// children: exactly one entry per child, in enumeration order, with
    /// the selection at the first entry.
    pub fn new(path: &String, children: Vec<ChildEntry>) -> (listing: Files)
        requires
            path@.len() > 0,
            path@.last() == '/',
        ensures
            listing.wf(),
            listing.state.selected == 0,
            listing.files@.len() == children@.len(),
            forall|i: int|
                0 <= i < children@.len() ==> Self::entry_matches(
                    #[trigger] listing.files@[i],
                    children@[i],
                    path@,
                ),
            listing.entries_wf(path@),
    {
        let mut files: Vec<File> = Vec::new();
        let mut i: usize = 0;
        while i < children.len()
            invariant
                i <= children@.len(),
                files@.len() == i,
                path@.len() > 0,
                path@.last() == '/',
                forall|j: int|
                    0 <= j < i as int ==> Self::entry_matches(
                        #[trigger] files@[j],
                        children@[j],
                        path@,
                    ),
                forall|j: int| 0 <= j < i as int ==> (#[trigger] files@[j]).wf_in(path@),
            decreases children@.len() - i,
        {
            let child = &children[i];
            let mut name = child.name.clone();
            let file_path = path.clone().concat(child.name.as_str());
            if child.is_dir {
                name.push('/');
            }
            let f = File::new(name, child.is_dir, child.size, file_path);
            proof {
                if child.is_dir {
                    assert(child.name@.push('/') =~= child.name@ + seq!['/']);
                    assert((child.name@ + seq!['/']).drop_last() =~= child.name@);
                }
                assert(Self::entry_matches(f, children@[i as int], path@));
                assert(f.wf_in(path@));
            }
            files.push(f);
            i += 1;
        }
        Files { state: State::new(), files }
    }

    /// The cursor after moving one entry forward with wrap-around; an
    /// empty listing leaves it in place.
    pub open spec fn next_selected(self) -> int {
        if self.files@.len() == 0 {
            self.state.selected as int
        } else if self.state.selected as int == self.files@.len() - 1 {
            0int
        } else {
            self.state.selected + 1
        }
    }

    /// The cursor after moving one entry backward with wrap-around; an
    /// empty listing leaves it in place.
    pub open spec fn prev_selected(self) -> int {
        if self.files@.len() == 0 {
            self.state.selected as int
        } else if self.state.selected == 0 {
            self.files@.len() - 1
        } else {
            self.state.selected - 1
        }
    }

    /// The same listing with the cursor at `i`.
    pub open spec fn with_selected(self, i: int) -> Files {
        Files { state: State { selected: i as usize }, ..self }
    }

    /// Moves the selection one entry forward, wrapping from the last
    /// entry to the first; a no-op on an empty listing.
    pub fn next(&mut self)
        requires
            old(self).wf(),
        ensures
            final(self).wf(),
            *final(self) == old(self).with_selected(old(self).next_selected()),
    {
        if self.files.len() == 0 {
            return;
        }
        let i: usize = if self.state.selected >= self.files.len() - 1 {
            0
        } else {
            self.state.selected + 1
        };
        self.state.select(i);
    }

    /// Moves the selection one entry backward, wrapping from the first
    /// entry to the last; a no-op on an empty listing.
    pub fn previous(&mut self)
        requires
            old(self).wf(),
        ensures
            final(self).wf(),
            *final(self) == old(self).with_selected(old(self).prev_selected()),
    {
        if self.files.len() == 0 {
            return;
        }
        let i: usize = if self.state.selected == 0 {
            self.files.len() - 1
        } else {
            self.state.selected - 1
        };
        self.state.select(i);
    }
}

} // verus!
