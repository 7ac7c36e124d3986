use vstd::prelude::*;
use crate::entry::{File, NavError, dirs_first, lemma_partition_len, sort_entries};
use crate::list::{StatefulList, clamp_cursor, cursor_fits};
use crate::path::{DirPath, History};

verus! {

/// What an active navigation state holds, as mathematical values.
pub struct Snapshot {
    /// The current listing, in display order.
    pub items: Seq<File>,
    /// The cursor within `items`.
    pub cursor: Option<usize>,
    /// The directory on display.
    pub path: Seq<Seq<char>>,
    /// For each directory left so far, where its cursor stood.
    pub history: Map<Seq<Seq<char>>, usize>,
    /// Whether the log panel is shown.
    pub show_log: bool,
    /// Whether the help panel is shown.
    pub show_help: bool,
}

/// The index recorded for a directory when it is left; an empty listing
/// records the first position.
pub open spec fn left_index(c: Option<usize>) -> usize {
    match c {
        Some(i) => i,
        None => 0,
    }
}

/// The cursor on entering directory `p` from above: where it was last left,
/// if that is still in range, else the first item.
pub open spec fn history_cursor(h: Map<Seq<Seq<char>>, usize>, p: Seq<Seq<char>>, len: nat) -> Option<usize> {
    if h.contains_key(p) {
        clamp_cursor(h[p] as int, len)
    } else {
        clamp_cursor(0, len)
    }
}

/// Item `i` is the first of `items` called `name`.
pub open spec fn first_named(items: Seq<File>, name: Seq<char>, i: int) -> bool {
    &&& 0 <= i < items.len()
    &&& items[i].name@ == name
    &&& forall|j: int| 0 <= j < i ==> (#[trigger] items[j]).name@ != name
}

/// The cursor on returning to a directory from its child `name`: on the first
/// item of that name, else on the first item.
pub open spec fn name_cursor(items: Seq<File>, name: Seq<char>) -> Option<usize> {
    if exists|i: int| #[trigger] first_named(items, name, i) {
        Some((choose|i: int| #[trigger] first_named(items, name, i)) as usize)
    } else {
        clamp_cursor(0, items.len())
    }
}

/// The directory that a descent would enter: the selected item, if it is a directory.
pub open spec fn descend_target(v: Snapshot) -> Option<Seq<Seq<char>>> {
    match v.cursor {
        Some(i) => if i < v.items.len() && v.items[i as int].is_dir {
            Some(v.path.push(v.items[i as int].name@))
        } else {
            None
        },
        None => None,
    }
}

/// The state after descending into the selected directory, whose listing is `entries`.
pub open spec fn descended(v: Snapshot, entries: Seq<File>) -> Snapshot {
    let history = v.history.insert(v.path, left_index(v.cursor));
    let target = v.path.push(v.items[v.cursor.unwrap() as int].name@);
    let items = dirs_first(entries);
    Snapshot {
        items,
        cursor: history_cursor(history, target, items.len()),
        path: target,
        history,
        show_log: v.show_log,
        show_help: v.show_help,
    }
}

/// The state after ascending to the parent directory, whose listing is `entries`.
pub open spec fn ascended(v: Snapshot, entries: Seq<File>) -> Snapshot {
    let items = dirs_first(entries);
    Snapshot {
        items,
        cursor: name_cursor(items, v.path.last()),
        path: v.path.drop_last(),
        history: v.history.insert(v.path, left_index(v.cursor)),
        show_log: v.show_log,
        show_help: v.show_help,
    }
}

/// The state right after the first listing, of `root`, is read.
pub open spec fn started(root: Seq<Seq<char>>, entries: Seq<File>) -> Snapshot {
    let items = dirs_first(entries);
    Snapshot {
        items,
        cursor: clamp_cursor(0, items.len()),
        path: root,
        history: Map::empty().insert(root, 0usize),
        show_log: false,
        show_help: false,
    }
}

/// The navigation state: nothing read yet, or a directory on display.
#[derive(Debug, PartialEq, Eq)]
pub enum AppState {
    Init,
    Initialized {
        current_list: StatefulList<File>,
        cursor: DirPath,
        last_index: History,
        display_log: bool,
        display_help: bool,
    },
}

impl View for AppState {
    type V = Option<Snapshot>;

    open spec fn view(&self) -> Option<Snapshot> {
        match self {
            AppState::Init => None,
            AppState::Initialized { current_list, cursor, last_index, display_log, display_help } => Some(
                Snapshot {
                    items: current_list.seq(),
                    cursor: current_list.cursor(),
                    path: cursor@,
                    history: last_index@,
                    show_log: *display_log,
                    show_help: *display_help,
                },
            ),
        }
    }
}

fn index_of_name(items: &Vec<File>, name: &String) -> (r: Option<usize>)
    ensures
        match r {
            Some(i) => first_named(items@, name@, i as int),
            None => forall|i: int| 0 <= i < items@.len() ==> (#[trigger] items@[i]).name@ != name@,
        },
{
    let mut i: usize = 0;
    while i < items.len()
        invariant
            0 <= i <= items@.len(),
            forall|j: int| 0 <= j < i ==> (#[trigger] items@[j]).name@ != name@,
        decreases items@.len() - i,
    {
        if items[i].name == *name {
            return Some(i);
        }
        i += 1;
    }
    None
}

proof fn lemma_first_named_unique(items: Seq<File>, name: Seq<char>, i: int, j: int)
    requires
        first_named(items, name, i),
        first_named(items, name, j),
    ensures
        i == j,
{
    if i < j {
        assert(items[i].name@ != name);
    } else if j < i {
        assert(items[j].name@ != name);
    }
}

/// After any successful listing the list is non-empty exactly when the listing
/// had an entry, and its cursor fits it: on start, on descent and on ascent.
pub proof fn lemma_listing_decides_emptiness(v: Snapshot, root: Seq<Seq<char>>, entries: Seq<File>)
    ensures
        started(root, entries).items.len() > 0 <==> entries.len() > 0,
        cursor_fits(started(root, entries).cursor, started(root, entries).items.len()),
        descend_target(v) is Some ==> {
            &&& descended(v, entries).items.len() > 0 <==> entries.len() > 0
            &&& cursor_fits(descended(v, entries).cursor, descended(v, entries).items.len())
        },
        ascended(v, entries).items.len() > 0 <==> entries.len() > 0,
        cursor_fits(ascended(v, entries).cursor, ascended(v, entries).items.len()),
{
    lemma_partition_len(entries);
    let items = dirs_first(entries);
    if exists|i: int| #[trigger] first_named(items, v.path.last(), i) {
        let c = choose|i: int| #[trigger] first_named(items, v.path.last(), i);
        assert(0 <= c < items.len());
    }
}

/// Leaving a directory for its parent and entering it again puts the cursor
/// where it stood when the directory was left, if that is still in range.
pub proof fn lemma_redescend_restores(v: Snapshot, first: Seq<File>, parent: Seq<File>, again: Seq<File>)
    requires
        descend_target(v) is Some,
        descend_target(ascended(descended(v, first), parent)) == descend_target(v),
    ensures
        descended(ascended(descended(v, first), parent), again).path == descended(v, first).path,
        descended(ascended(descended(v, first), parent), again).cursor == clamp_cursor(
            left_index(descended(v, first).cursor) as int,
            dirs_first(again).len(),
        ),
{
    let v1 = descended(v, first);
    let v2 = ascended(v1, parent);
    assert(v1.path.drop_last() =~= v.path);
    assert(v2.path.len() < v1.path.len());
    assert(v2.path != v1.path);
}

impl Default for AppState {
    fn default() -> (r: AppState)
        ensures
            r@ is None,
    {
        AppState::Init
    }
}

impl AppState {
    /// The state that shows directory `root`, whose listing is `entries`.
    pub fn initialized(root: DirPath, entries: Vec<File>) -> (r: AppState)
        ensures
            r@ == Some(started(root@, entries@)),
    {
        let mut last_index = History::new();
        last_index.insert(&root, 0);
        let current_list = StatefulList::new(sort_entries(&entries));
        AppState::Initialized { current_list, cursor: root, last_index, display_log: false, display_help: false }
    }

    /// Starts showing `root`, given the outcome of listing it; where the
    /// listing failed, reports that and leaves the state as it was.
    pub fn initialize(&mut self, root: DirPath, listing: Result<Vec<File>, NavError>) -> (r: Result<(), NavError>)
        ensures
            match listing {
                Ok(entries) => r is Ok && final(self)@ == Some(started(root@, entries@)),
                Err(e) => r == Err::<(), NavError>(e) && *final(self) == *old(self),
            },
    {
        match listing {
            Ok(entries) => {
                *self = AppState::initialized(root, entries);
                Ok(())
            },
            Err(e) => Err(e),
        }
    }

    /// The directory that a descent would enter, if the selected item is one.
    pub fn selected_dir(&self) -> (r: Option<DirPath>)
        ensures
            match self@ {
                Some(v) => match r {
                    Some(p) => descend_target(v) == Some(p@),
                    None => descend_target(v) is None,
                },
                None => r is None,
            },
    {
        match self {
            AppState::Init => None,
            AppState::Initialized { current_list, cursor, .. } => match current_list.current() {
                Some(f) => if f.is_dir {
                    Some(cursor.child(&f.name))
                } else {
                    None
                },
                None => None,
            },
        }
    }

    /// The directory that an ascent would enter: the parent of the one on display.
    pub fn parent_dir(&self) -> (r: Option<DirPath>)
        ensures
            match self@ {
                Some(v) => match r {
                    Some(p) => v.path.len() > 0 && p@ == v.path.drop_last(),
                    None => v.path.len() == 0,
                },
                None => r is None,
            },
    {
        match self {
            AppState::Init => None,
            AppState::Initialized { cursor, .. } => match cursor.split_last() {
                Some((p, _)) => Some(p),
                None => None,
            },
        }
    }

    /// Descends into the selected directory, given the outcome of listing it.
    /// Where nothing is selected or the selected item is not a directory, nothing
    /// changes. Where the listing failed, that is reported and nothing changes.
    pub fn read_dir(&mut self, listing: Result<Vec<File>, NavError>) -> (r: Result<(), NavError>)
        ensures
            match old(self)@ {
                Some(v) => if descend_target(v) is Some {
                    match listing {
                        Ok(entries) => r is Ok && final(self)@ == Some(descended(v, entries@)),
                        Err(e) => r == Err::<(), NavError>(e) && *final(self) == *old(self),
                    }
                } else {
                    r is Ok && *final(self) == *old(self)
                },
                None => r is Ok && *final(self) == *old(self),
            },
    {
        match self {
            AppState::Init => Ok(()),
            AppState::Initialized { current_list, cursor, last_index, .. } => {
                let target = match current_list.current() {
                    Some(f) => if f.is_dir {
                        cursor.child(&f.name)
                    } else {
                        return Ok(());
                    },
                    None => {
                        return Ok(());
                    },
                };
                let entries = match listing {
                    Ok(entries) => entries,
                    Err(e) => {
                        return Err(e);
                    },
                };
                let left = match current_list.index() {
                    Some(i) => i,
                    None => 0,
                };
                last_index.insert(cursor, left);
                let mut list = StatefulList::new(sort_entries(&entries));
                match last_index.get(&target) {
                    Some(k) => list.select(k),
                    None => {},
                }
                *current_list = list;
                *cursor = target;
                Ok(())
            },
        }
    }

    /// Ascends to the parent directory, given the outcome of listing it, and
    /// puts the cursor on the directory just left. At the root nothing changes.
    /// Where the listing failed, that is reported and nothing changes.
    pub fn read_parent(&mut self, listing: Result<Vec<File>, NavError>) -> (r: Result<(), NavError>)
        ensures
            match old(self)@ {
                Some(v) => if v.path.len() > 0 {
                    match listing {
                        Ok(entries) => r is Ok && final(self)@ == Some(ascended(v, entries@)),
                        Err(e) => r == Err::<(), NavError>(e) && *final(self) == *old(self),
                    }
                } else {
                    r is Ok && *final(self) == *old(self)
                },
                None => r is Ok && *final(self) == *old(self),
            },
    {
        match self {
            AppState::Init => Ok(()),
            AppState::Initialized { current_list, cursor, last_index, .. } => {
                let (parent, left_name) = match cursor.split_last() {
                    Some(pair) => pair,
                    None => {
                        return Ok(());
                    },
                };
                let entries = match listing {
                    Ok(entries) => entries,
                    Err(e) => {
                        return Err(e);
                    },
                };
                let left = match current_list.index() {
                    Some(i) => i,
                    None => 0,
                };
                last_index.insert(cursor, left);
                let sorted = sort_entries(&entries);
                let found = index_of_name(&sorted, &left_name);
                let mut list = StatefulList::new(sorted);
                match found {
                    Some(k) => {
                        list.select(k);
                        proof {
                            let items = list.seq();
                            let c = choose|i: int| #[trigger] first_named(items, left_name@, i);
                            lemma_first_named_unique(items, left_name@, c, k as int);
                        }
                    },
                    None => {
                        proof {
                            let items = list.seq();
                            assert(!exists|i: int| #[trigger] first_named(items, left_name@, i));
                        }
                    },
                }
                *current_list = list;
                *cursor = parent;
                Ok(())
            },
        }
    }

    /// Puts the current listing in display order (see `dirs_first`); the cursor
    /// keeps its index.
    pub fn sort_dir_items(&mut self)
        ensures
            match old(self)@ {
                Some(v) => final(self)@ == Some(Snapshot { items: dirs_first(v.items), ..v }),
                None => *final(self) == *old(self),
            },
    {
        match self {
            AppState::Init => {},
            AppState::Initialized { current_list, .. } => {
                let sorted = sort_entries(current_list.items());
                proof { lemma_partition_len(current_list.seq()); }
                let mut list = StatefulList::new(sorted);
                match current_list.index() {
                    Some(i) => list.select(i),
                    None => {},
                }
                *current_list = list;
            },
        }
    }

    /// The directory on display.
    pub fn cursor(&self) -> (r: Option<&DirPath>)
        ensures
            match self@ {
                Some(v) => r matches Some(p) && p@ == v.path,
                None => r is None,
            },
    {
        match self {
            AppState::Init => None,
            AppState::Initialized { cursor, .. } => Some(cursor),
        }
    }

    /// The current listing with its cursor.
    pub fn current_list(&self) -> (r: Option<&StatefulList<File>>)
        ensures
            match self@ {
                Some(v) => r matches Some(l) && l.seq() == v.items && l.cursor() == v.cursor,
                None => r is None,
            },
    {
        match self {
            AppState::Init => None,
            AppState::Initialized { current_list, .. } => Some(current_list),
        }
    }

    /// Whether the log panel is shown.
    pub fn display_log(&self) -> (r: Option<bool>)
        ensures
            r == match self@ {
                Some(v) => Some(v.show_log),
                None => None::<bool>,
            },
    {
        match self {
            AppState::Init => None,
            AppState::Initialized { display_log, .. } => Some(*display_log),
        }
    }

    /// Shows the log panel if hidden, hides it if shown.
    pub fn toggle_log(&mut self)
        ensures
            match old(self)@ {
                Some(v) => final(self)@ == Some(Snapshot { show_log: !v.show_log, ..v }),
                None => *final(self) == *old(self),
            },
    {
        match self {
            AppState::Init => {},
            AppState::Initialized { display_log, .. } => {
                *display_log = !*display_log;
            },
        }
    }

    /// Whether the help panel is shown.
    pub fn display_help(&self) -> (r: Option<bool>)
        ensures
            r == match self@ {
                Some(v) => Some(v.show_help),
                None => None::<bool>,
            },
    {
        match self {
            AppState::Init => None,
            AppState::Initialized { display_help, .. } => Some(*display_help),
        }
    }

    /// Shows the help panel if hidden, hides it if shown.
    pub fn toggle_help(&mut self)
        ensures
            match old(self)@ {
                Some(v) => final(self)@ == Some(Snapshot { show_help: !v.show_help, ..v }),
                None => *final(self) == *old(self),
            },
    {
        match self {
            AppState::Init => {},
            AppState::Initialized { display_help, .. } => {
                *display_help = !*display_help;
            },
        }
    }

    /// Whether a directory is on display.
    pub fn is_initialized(&self) -> (r: bool)
        ensures
            r == (self@ is Some),
    {
        match self {
            AppState::Init => false,
            AppState::Initialized { .. } => true,
        }
    }
}

} // verus!
