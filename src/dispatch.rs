use vstd::prelude::*;
use crate::actions::{Action, Actions, Binding, all_actions, binds, default_keys};
use crate::entry::{File, NavError};
use crate::inputs::Key;
use crate::list::{next_cursor, previous_cursor};
use crate::path::DirPath;
use crate::state::{AppState, Snapshot, ascended, descend_target, descended, started};

verus! {

/// What the dispatch loop does after a key press.
#[derive(Debug, PartialEq, Eq)]
pub enum AppReturn {
    /// Stop the loop.
    Exit,
    /// Wait for the next event.
    Continue,
    /// List this directory and hand the outcome to `App::descend`.
    Descend(DirPath),
    /// List this directory and hand the outcome to `App::ascend`.
    Ascend(DirPath),
}

/// The command that key `k` triggers in bindings `b`, if any.
pub open spec fn bound_action(b: Seq<Binding>, k: Key) -> Option<Action> {
    if exists|a: Action| binds(b, a, k) {
        Some(choose|a: Action| binds(b, a, k))
    } else {
        None
    }
}

/// The bindings that the application starts with: every command, with its
/// default keys.
pub open spec fn is_default_table(b: Seq<Binding>) -> bool {
    &&& b.len() == all_actions().len()
    &&& forall|i: int| 0 <= i < b.len() ==> (#[trigger] b[i]).0 == all_actions()[i] && b[i].1@ == default_keys(all_actions()[i])
}

/// The navigation state after moving the cursor one step forward.
pub open spec fn stepped_forward(s: Option<Snapshot>) -> Option<Snapshot> {
    match s {
        Some(v) => Some(Snapshot { cursor: next_cursor(v.cursor, v.items.len()), ..v }),
        None => None,
    }
}

/// The navigation state after moving the cursor one step back.
pub open spec fn stepped_back(s: Option<Snapshot>) -> Option<Snapshot> {
    match s {
        Some(v) => Some(Snapshot { cursor: previous_cursor(v.cursor, v.items.len()), ..v }),
        None => None,
    }
}

/// The key table together with the navigation state.
pub struct App {
    actions: Actions,
    state: AppState,
}

impl App {
    /// The key table.
    pub closed spec fn table(self) -> Seq<Binding> {
        self.actions.bindings()
    }

    /// The navigation state.
    pub closed spec fn nav(self) -> AppState {
        self.state
    }

    /// The application with the default keys, showing `root`, given the outcome
    /// of listing it.
    pub fn new(root: DirPath, listing: Result<Vec<File>, NavError>) -> (r: Result<App, NavError>)
        ensures
            match listing {
                Ok(entries) => r matches Ok(app) && app.nav()@ == Some(started(root@, entries@))
                    && is_default_table(app.table()),
                Err(e) => r == Err::<App, NavError>(e),
            },
    {
        let entries = match listing {
            Ok(entries) => entries,
            Err(e) => {
                return Err(e);
            },
        };
        let actions = match Actions::from_actions(Action::iterator()) {
            Ok(actions) => actions,
            // Never taken: distinct commands share no default key.
            Err(_) => {
                return Err(NavError::ListingFailure);
            },
        };
        Ok(App { actions, state: AppState::initialized(root, entries) })
    }

    /// Runs the command that `key` triggers. Moves and toggles take effect at
    /// once; a descent or an ascent is handed back as the directory to list,
    /// and the state is left as it was.
    pub fn do_action(&mut self, key: Key) -> (r: AppReturn)
        ensures
            final(self).table() == old(self).table(),
            match bound_action(old(self).table(), key) {
                Some(Action::Quit) => r == AppReturn::Exit && final(self).nav() == old(self).nav(),
                Some(Action::Increment) => r == AppReturn::Continue
                    && final(self).nav()@ == stepped_forward(old(self).nav()@),
                Some(Action::Decrement) => r == AppReturn::Continue
                    && final(self).nav()@ == stepped_back(old(self).nav()@),
                Some(Action::Back) => final(self).nav() == old(self).nav() && match old(self).nav()@ {
                    Some(v) => if v.path.len() > 0 {
                        r matches AppReturn::Ascend(p) && p@ == v.path.drop_last()
                    } else {
                        r == AppReturn::Continue
                    },
                    None => r == AppReturn::Continue,
                },
                Some(Action::Forward) => final(self).nav() == old(self).nav() && match old(self).nav()@ {
                    Some(v) => match descend_target(v) {
                        Some(t) => r matches AppReturn::Descend(p) && p@ == t,
                        None => r == AppReturn::Continue,
                    },
                    None => r == AppReturn::Continue,
                },
                Some(Action::ToggleLog) => r == AppReturn::Continue && final(self).nav()@ == match old(self).nav()@ {
                    Some(v) => Some(Snapshot { show_log: !v.show_log, ..v }),
                    None => None,
                },
                Some(Action::ToggleHelp) => r == AppReturn::Continue && final(self).nav()@ == match old(self).nav()@ {
                    Some(v) => Some(Snapshot { show_help: !v.show_help, ..v }),
                    None => None,
                },
                _ => r == AppReturn::Continue && final(self).nav() == old(self).nav(),
            },
    {
        let found = self.actions.find(key);
        proof {
            let b = self.actions.bindings();
            match found {
                Some(a) => {
                    assert(binds(b, a, key));
                    let c = choose|c: Action| binds(b, c, key);
                    assert(found == Some(c));
                },
                None => {
                    assert(!exists|a: Action| binds(b, a, key));
                },
            }
        }
        match found {
            Some(Action::Quit) => AppReturn::Exit,
            Some(Action::Increment) => {
                match &mut self.state {
                    AppState::Initialized { current_list, .. } => current_list.next(),
                    AppState::Init => {},
                }
                AppReturn::Continue
            },
            Some(Action::Decrement) => {
                match &mut self.state {
                    AppState::Initialized { current_list, .. } => current_list.previous(),
                    AppState::Init => {},
                }
                AppReturn::Continue
            },
            Some(Action::Back) => match self.state.parent_dir() {
                Some(p) => AppReturn::Ascend(p),
                None => AppReturn::Continue,
            },
            Some(Action::Forward) => match self.state.selected_dir() {
                Some(p) => AppReturn::Descend(p),
                None => AppReturn::Continue,
            },
            Some(Action::ToggleLog) => {
                self.state.toggle_log();
                AppReturn::Continue
            },
            Some(Action::ToggleHelp) => {
                self.state.toggle_help();
                AppReturn::Continue
            },
            _ => AppReturn::Continue,
        }
    }

    /// Descends into the selected directory, given the outcome of listing it
    /// (see `AppState::read_dir`).
    pub fn descend(&mut self, listing: Result<Vec<File>, NavError>) -> (r: Result<(), NavError>)
        ensures
            final(self).table() == old(self).table(),
            match old(self).nav()@ {
                Some(v) => if descend_target(v) is Some {
                    match listing {
                        Ok(entries) => r is Ok && final(self).nav()@ == Some(descended(v, entries@)),
                        Err(e) => r == Err::<(), NavError>(e) && final(self).nav() == old(self).nav(),
                    }
                } else {
                    r is Ok && final(self).nav() == old(self).nav()
                },
                None => r is Ok && final(self).nav() == old(self).nav(),
            },
    {
        self.state.read_dir(listing)
    }

    /// Ascends to the parent directory, given the outcome of listing it
    /// (see `AppState::read_parent`).
    pub fn ascend(&mut self, listing: Result<Vec<File>, NavError>) -> (r: Result<(), NavError>)
        ensures
            final(self).table() == old(self).table(),
            match old(self).nav()@ {
                Some(v) => if v.path.len() > 0 {
                    match listing {
                        Ok(entries) => r is Ok && final(self).nav()@ == Some(ascended(v, entries@)),
                        Err(e) => r == Err::<(), NavError>(e) && final(self).nav() == old(self).nav(),
                    }
                } else {
                    r is Ok && final(self).nav() == old(self).nav()
                },
                None => r is Ok && final(self).nav() == old(self).nav(),
            },
    {
        self.state.read_parent(listing)
    }

    /// A tick changes nothing.
    pub fn update_on_tick(&mut self) -> (r: AppReturn)
        ensures
            r == AppReturn::Continue,
            *final(self) == *old(self),
    {
        AppReturn::Continue
    }

    /// The navigation state.
    pub fn state(&self) -> (r: &AppState)
        ensures
            *r == self.nav(),
    {
        &self.state
    }

    /// The key table.
    pub fn actions(&self) -> (r: &Actions)
        ensures
            r.bindings() == self.table(),
    {
        &self.actions
    }
}

} // verus!
