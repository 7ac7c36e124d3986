use vstd::prelude::*;
use crate::inputs::Key;

verus! {

/// A command that the user can trigger from the keyboard.
#[derive(Debug, Clone, Copy, PartialEq, Eq, Structural)]
pub enum Action {
    Quit,
    Increment,
    Decrement,
    Select,
    Back,
    Forward,
    ToggleLog,
    ToggleHelp,
}

/// Every command, in the order in which help lists them.
pub open spec fn all_actions() -> Seq<Action> {
    seq![
        Action::Quit,
        Action::Increment,
        Action::Decrement,
        Action::Select,
        Action::Back,
        Action::Forward,
        Action::ToggleLog,
        Action::ToggleHelp,
    ]
}

/// The keys that trigger a command out of the box.
pub open spec fn default_keys(a: Action) -> Seq<Key> {
    match a {
        Action::Quit => seq![Key::Ctrl('c'), Key::Char('q')],
        Action::Increment => seq![Key::Down],
        Action::Decrement => seq![Key::Up],
        Action::Select => seq![Key::Enter],
        Action::Back => seq![Key::Left],
        Action::Forward => seq![Key::Right],
        Action::ToggleLog => seq![Key::Char('D')],
        Action::ToggleHelp => seq![Key::Char('?')],
    }
}

/// The text shown for a command.
pub open spec fn label_of(a: Action) -> Seq<char> {
    match a {
        Action::Quit => "Quit"@,
        Action::Increment => "Select Next"@,
        Action::Decrement => "Select Previous"@,
        Action::Select => "Select"@,
        Action::Back => "Cursor Go To Parent"@,
        Action::Forward => "Cursor Go To Selected Directory"@,
        Action::ToggleLog => "Toggle Log"@,
        Action::ToggleHelp => "Toggle Help"@,
    }
}

impl Action {
    /// All commands, in a fixed order.
    pub fn iterator() -> (r: Vec<Action>)
        ensures
            r@ == all_actions(),
    {
        let r = vec![
            Action::Quit,
            Action::Increment,
            Action::Decrement,
            Action::Select,
            Action::Back,
            Action::Forward,
            Action::ToggleLog,
            Action::ToggleHelp,
        ];
        assert(r@ =~= all_actions());
        r
    }

    /// The keys bound to this command by default.
    pub fn keys(&self) -> (r: Vec<Key>)
        ensures
            r@ == default_keys(*self),
    {
        let r = match self {
            Action::Quit => vec![Key::Ctrl('c'), Key::Char('q')],
            Action::Increment => vec![Key::Down],
            Action::Decrement => vec![Key::Up],
            Action::Select => vec![Key::Enter],
            Action::Back => vec![Key::Left],
            Action::Forward => vec![Key::Right],
            Action::ToggleLog => vec![Key::Char('D')],
            Action::ToggleHelp => vec![Key::Char('?')],
        };
        assert(r@ =~= default_keys(*self));
        r
    }

    /// The text shown for this command.
    pub fn label(&self) -> (r: &'static str)
        ensures
            r@ == label_of(*self),
    {
        match self {
            Action::Quit => "Quit",
            Action::Increment => "Select Next",
            Action::Decrement => "Select Previous",
            Action::Select => "Select",
            Action::Back => "Cursor Go To Parent",
            Action::Forward => "Cursor Go To Selected Directory",
            Action::ToggleLog => "Toggle Log",
            Action::ToggleHelp => "Toggle Help",
        }
    }
}

/// One command together with the keys that trigger it.
pub type Binding = (Action, Vec<Key>);

/// Command `a` is triggered by key `k` in the bindings `b`.
pub open spec fn binds(b: Seq<Binding>, a: Action, k: Key) -> bool {
    exists|i: int| 0 <= i < b.len() && #[trigger] b[i].0 == a && b[i].1@.contains(k)
}

/// Entries `i < j` of `b` hold two different commands that share key `k`.
pub open spec fn clash(b: Seq<Binding>, i: int, j: int, k: Key) -> bool {
    &&& 0 <= i < j < b.len()
    &&& b[i].0 != b[j].0
    &&& b[i].1@.contains(k)
    &&& b[j].1@.contains(k)
}

/// Some key of `b` triggers two different commands.
pub open spec fn has_conflict(b: Seq<Binding>) -> bool {
    exists|i: int, j: int, k: Key| #[trigger] clash(b, i, j, k)
}

/// Two different commands that one key would trigger.
#[derive(Debug, Clone, Copy, PartialEq, Eq, Structural)]
pub struct KeyConflict {
    pub key: Key,
    pub first: Action,
    pub second: Action,
}

/// A table from keys to commands in which no key triggers two commands.
pub struct Actions {
    bindings: Vec<Binding>,
}

fn contains_key(keys: &Vec<Key>, k: Key) -> (r: bool)
    ensures
        r == keys@.contains(k),
{
    let mut i: usize = 0;
    while i < keys.len()
        invariant
            0 <= i <= keys.len(),
            forall|x: int| 0 <= x < i ==> keys@[x] != k,
        decreases keys.len() - i,
    {
        if keys[i] == k {
            return true;
        }
        i += 1;
    }
    false
}

fn shared_key(a: &Vec<Key>, b: &Vec<Key>) -> (r: Option<Key>)
    ensures
        match r {
            Some(k) => a@.contains(k) && b@.contains(k),
            None => forall|k: Key| !(#[trigger] a@.contains(k) && b@.contains(k)),
        },
{
    let mut i: usize = 0;
    while i < a.len()
        invariant
            0 <= i <= a.len(),
            forall|x: int| 0 <= x < i ==> !b@.contains(#[trigger] a@[x]),
        decreases a.len() - i,
    {
        if contains_key(b, a[i]) {
            return Some(a[i]);
        }
        i += 1;
    }
    None
}

impl Actions {
    #[verifier::type_invariant]
    spec fn unambiguous(self) -> bool {
        !has_conflict(self.bindings@)
    }

    /// The bindings of the table, in the order they were given.
    pub closed spec fn bindings(self) -> Seq<Binding> {
        self.bindings@
    }

    /// Builds a table from commands and their keys; fails where one key would
    /// trigger two different commands, naming that key and both commands.
    pub fn build(bindings: Vec<Binding>) -> (r: Result<Actions, KeyConflict>)
        ensures
            match r {
                Ok(reg) => !has_conflict(bindings@) && reg.bindings() == bindings@,
                Err(c) => exists|i: int, j: int|
                    #[trigger] clash(bindings@, i, j, c.key) && bindings@[i].0 == c.first
                        && bindings@[j].0 == c.second,
            },
    {
        let n = bindings.len();
        let mut j: usize = 0;
        while j < n
            invariant
                n == bindings.len(),
                0 <= j <= n,
                forall|i2: int, j2: int, k: Key| j2 < j ==> !#[trigger] clash(bindings@, i2, j2, k),
            decreases n - j,
        {
            let mut i: usize = 0;
            while i < j
                invariant
                    n == bindings.len(),
                    0 <= i <= j < n,
                    forall|i2: int, j2: int, k: Key| j2 < j ==> !#[trigger] clash(bindings@, i2, j2, k),
                    forall|i2: int, k: Key| i2 < i ==> !#[trigger] clash(bindings@, i2, j as int, k),
                decreases j - i,
            {
                if bindings[i].0 != bindings[j].0 {
                    match shared_key(&bindings[i].1, &bindings[j].1) {
                        Some(k) => {
                            assert(clash(bindings@, i as int, j as int, k));
                            return Err(KeyConflict { key: k, first: bindings[i].0, second: bindings[j].0 });
                        },
                        None => {
                            assert forall|k: Key| !#[trigger] clash(bindings@, i as int, j as int, k) by {
                                if bindings@[i as int].1@.contains(k) && bindings@[j as int].1@.contains(k) {
                                }
                            }
                        },
                    }
                }
                i += 1;
            }
            j += 1;
        }
        Ok(Actions { bindings })
    }

    /// Builds a table that binds each given command to its default keys.
    pub fn from_actions(actions: Vec<Action>) -> (r: Result<Actions, KeyConflict>)
        ensures
            match r {
                Ok(reg) => {
                    &&& reg.bindings().len() == actions@.len()
                    &&& forall|i: int| 0 <= i < actions@.len() ==> (#[trigger] reg.bindings()[i]).0 == actions@[i]
                        && reg.bindings()[i].1@ == default_keys(actions@[i])
                },
                Err(_) => false,
            },
    {
        let mut bindings: Vec<Binding> = Vec::new();
        let mut i: usize = 0;
        while i < actions.len()
            invariant
                0 <= i <= actions.len(),
                bindings@.len() == i,
                forall|x: int| 0 <= x < i ==> (#[trigger] bindings@[x]).0 == actions@[x]
                    && bindings@[x].1@ == default_keys(actions@[x]),
            decreases actions.len() - i,
        {
            let a = actions[i];
            bindings.push((a, a.keys()));
            i += 1;
        }
        let ghost b = bindings@;
        let r = Actions::build(bindings);
        match r {
            Ok(_) => {},
            Err(c) => {
                let ghost (x, y) = choose|x: int, y: int|
                    #[trigger] clash(b, x, y, c.key) && b[x].0 == c.first && b[y].0 == c.second;
                proof { lemma_default_keys_disjoint(actions@[x], actions@[y], c.key); }
            },
        }
        r
    }

    /// The command that `key` triggers, if any.
    pub fn find(&self, key: Key) -> (r: Option<Action>)
        ensures
            forall|a: Action| r == Some(a) <==> binds(self.bindings(), a, key),
    {
        proof { use_type_invariant(self); }
        let mut i: usize = 0;
        while i < self.bindings.len()
            invariant
                0 <= i <= self.bindings@.len(),
                forall|x: int| 0 <= x < i ==> !(#[trigger] self.bindings@[x]).1@.contains(key),
            decreases self.bindings@.len() - i,
        {
            if contains_key(&self.bindings[i].1, key) {
                let found = self.bindings[i].0;
                proof {
                    use_type_invariant(self);
                    let b = self.bindings@;
                    assert(binds(b, found, key));
                    assert forall|a: Action| binds(b, a, key) implies a == found by {
                        lemma_key_triggers_one(b, key, a, found);
                    }
                    assert(b[i as int].0 == found);
                }
                return Some(found);
            }
            i += 1;
        }
        None
    }

    /// The commands of the table, in the order they were given.
    pub fn actions(&self) -> (r: Vec<Action>)
        ensures
            r@.len() == self.bindings().len(),
            forall|i: int| 0 <= i < r@.len() ==> r@[i] == (#[trigger] self.bindings()[i]).0,
    {
        let mut r: Vec<Action> = Vec::new();
        let mut i: usize = 0;
        while i < self.bindings.len()
            invariant
                0 <= i <= self.bindings@.len(),
                r@.len() == i,
                forall|x: int| 0 <= x < i ==> r@[x] == (#[trigger] self.bindings@[x]).0,
            decreases self.bindings@.len() - i,
        {
            r.push(self.bindings[i].0);
            i += 1;
        }
        r
    }
}

impl Default for Actions {
    fn default() -> (r: Actions)
        ensures
            r.bindings().len() == 0,
    {
        Actions { bindings: Vec::new() }
    }
}

/// Two different commands share no default key.
pub proof fn lemma_default_keys_disjoint(a: Action, b: Action, k: Key)
    requires
        default_keys(a).contains(k),
        default_keys(b).contains(k),
    ensures
        a == b,
{
    let i = choose|i: int| 0 <= i < default_keys(a).len() && default_keys(a)[i] == k;
    let j = choose|j: int| 0 <= j < default_keys(b).len() && default_keys(b)[j] == k;
    assert(default_keys(a)[i] == default_keys(b)[j]);
}

/// Where no key is shared by two different commands, a key triggers at most one
/// command, so that a lookup has one answer.
pub proof fn lemma_key_triggers_one(b: Seq<Binding>, k: Key, a1: Action, a2: Action)
    requires
        !has_conflict(b),
        binds(b, a1, k),
        binds(b, a2, k),
    ensures
        a1 == a2,
{
    let i = choose|i: int| 0 <= i < b.len() && #[trigger] b[i].0 == a1 && b[i].1@.contains(k);
    let j = choose|j: int| 0 <= j < b.len() && #[trigger] b[j].0 == a2 && b[j].1@.contains(k);
    if a1 != a2 {
        if i < j {
            assert(clash(b, i, j, k));
        } else {
            assert(clash(b, j, i, k));
        }
    }
}

} // verus!
