use vstd::prelude::*;

verus! {

/// An absolute directory path, held as its components from the root down.
#[derive(Debug, Clone, PartialEq, Eq)]
pub struct DirPath {
    parts: Vec<String>,
}

/// The names of a path's components.
pub open spec fn names_of(parts: Seq<String>) -> Seq<Seq<char>> {
    parts.map_values(|s: String| s@)
}

impl View for DirPath {
    type V = Seq<Seq<char>>;

    closed spec fn view(&self) -> Seq<Seq<char>> {
        names_of(self.parts@)
    }
}

impl DirPath {
    /// The path made of `parts`, from the root down; no parts is the root.
    pub fn new(parts: Vec<String>) -> (r: DirPath)
        ensures
            r@ == names_of(parts@),
    {
        DirPath { parts }
    }

    /// The root directory.
    pub fn root() -> (r: DirPath)
        ensures
            r@ == Seq::<Seq<char>>::empty(),
    {
        let r = DirPath { parts: Vec::new() };
        assert(r@ =~= Seq::<Seq<char>>::empty());
        r
    }

    /// The components, from the root down.
    pub fn parts(&self) -> (r: &Vec<String>)
        ensures
            names_of(r@) == self@,
    {
        &self.parts
    }

    /// An equal copy of this path.
    pub fn duplicate(&self) -> (r: DirPath)
        ensures
            r@ == self@,
    {
        let mut parts: Vec<String> = Vec::new();
        let mut i: usize = 0;
        while i < self.parts.len()
            invariant
                0 <= i <= self.parts@.len(),
                parts@ =~= self.parts@.take(i as int),
            decreases self.parts@.len() - i,
        {
            parts.push(self.parts[i].clone());
            i += 1;
        }
        assert(self.parts@.take(self.parts@.len() as int) =~= self.parts@);
        DirPath { parts }
    }

    /// Whether both paths name the same directory.
    pub fn same_as(&self, other: &DirPath) -> (r: bool)
        ensures
            r == (self@ == other@),
    {
        if self.parts.len() != other.parts.len() {
            assert(self@.len() != other@.len());
            return false;
        }
        let mut i: usize = 0;
        while i < self.parts.len()
            invariant
                0 <= i <= self.parts@.len(),
                self.parts@.len() == other.parts@.len(),
                forall|x: int| 0 <= x < i ==> self.parts@[x]@ == other.parts@[x]@,
            decreases self.parts@.len() - i,
        {
            if self.parts[i] != other.parts[i] {
                assert(self@[i as int] != other@[i as int]);
                return false;
            }
            i += 1;
        }
        assert(self@ =~= other@);
        true
    }

    /// The path of the entry `name` inside this directory.
    pub fn child(&self, name: &String) -> (r: DirPath)
        ensures
            r@ == self@.push(name@),
    {
        let mut r = self.duplicate();
        r.parts.push(name.clone());
        assert(r@ =~= self@.push(name@));
        r
    }

    /// The enclosing directory and this directory's own name; none for the root.
    pub fn split_last(&self) -> (r: Option<(DirPath, String)>)
        ensures
            match r {
                Some((p, n)) => self@.len() > 0 && p@ == self@.drop_last() && n@ == self@.last(),
                None => self@.len() == 0,
            },
    {
        let n = self.parts.len();
        if n == 0 {
            return None;
        }
        let mut parts: Vec<String> = Vec::new();
        let mut i: usize = 0;
        while i < n - 1
            invariant
                n == self.parts@.len(),
                0 <= i <= n - 1,
                parts@ =~= self.parts@.take(i as int),
            decreases n - 1 - i,
        {
            parts.push(self.parts[i].clone());
            i += 1;
        }
        assert(names_of(parts@) =~= self@.drop_last());
        Some((DirPath { parts }, self.parts[n - 1].clone()))
    }
}

/// The map that a list of (path, index) records stands for: a later record of
/// a path overrides an earlier one.
pub open spec fn records_map(s: Seq<(DirPath, usize)>) -> Map<Seq<Seq<char>>, usize>
    decreases s.len(),
{
    if s.len() == 0 {
        Map::empty()
    } else {
        records_map(s.drop_last()).insert(s.last().0@, s.last().1)
    }
}

/// For each directory left so far, the index its cursor stood at when it was left.
#[derive(Debug, Clone, PartialEq, Eq)]
pub struct History {
    records: Vec<(DirPath, usize)>,
}

impl View for History {
    type V = Map<Seq<Seq<char>>, usize>;

    closed spec fn view(&self) -> Map<Seq<Seq<char>>, usize> {
        records_map(self.records@)
    }
}

proof fn lemma_later_records_differ(s: Seq<(DirPath, usize)>, i: int, k: Seq<Seq<char>>)
    requires
        0 <= i <= s.len(),
        forall|j: int| i <= j < s.len() ==> (#[trigger] s[j]).0@ != k,
    ensures
        records_map(s).contains_key(k) == records_map(s.take(i)).contains_key(k),
        records_map(s).contains_key(k) ==> records_map(s)[k] == records_map(s.take(i))[k],
    decreases s.len() - i,
{
    if i < s.len() {
        lemma_later_records_differ(s.drop_last(), i, k);
        assert(s.drop_last().take(i) =~= s.take(i));
    } else {
        assert(s.take(i) =~= s);
    }
}

impl History {
    /// A history with no records.
    pub fn new() -> (r: History)
        ensures
            r@ == Map::<Seq<Seq<char>>, usize>::empty(),
    {
        History { records: Vec::new() }
    }

    /// The index recorded for `path`, if any.
    pub fn get(&self, path: &DirPath) -> (r: Option<usize>)
        ensures
            r == (if self@.contains_key(path@) { Some(self@[path@]) } else { None }),
    {
        let mut i: usize = self.records.len();
        while i > 0
            invariant
                0 <= i <= self.records@.len(),
                forall|j: int| i <= j < self.records@.len() ==> (#[trigger] self.records@[j]).0@ != path@,
            decreases i,
        {
            proof { lemma_later_records_differ(self.records@, i as int, path@); }
            if self.records[i - 1].0.same_as(path) {
                proof {
                    assert(self.records@.take(i as int).drop_last() =~= self.records@.take(i - 1));
                }
                return Some(self.records[i - 1].1);
            }
            i -= 1;
        }
        proof { lemma_later_records_differ(self.records@, 0, path@); }
        None
    }

    /// Records `index` for `path`, replacing any earlier record of it.
    pub fn insert(&mut self, path: &DirPath, index: usize)
        ensures
            final(self)@ == old(self)@.insert(path@, index),
    {
        let mut kept: Vec<(DirPath, usize)> = Vec::new();
        let mut i: usize = 0;
        while i < self.records.len()
            invariant
                0 <= i <= self.records@.len(),
                records_map(kept@) == records_map(self.records@.take(i as int)).remove(path@),
            decreases self.records@.len() - i,
        {
            proof {
                assert(self.records@.take(i + 1).drop_last() =~= self.records@.take(i as int));
            }
            if !self.records[i].0.same_as(path) {
                let rec = (self.records[i].0.duplicate(), self.records[i].1);
                let ghost before = kept@;
                kept.push(rec);
                proof {
                    assert(kept@.drop_last() =~= before);
                    assert(records_map(kept@) =~= records_map(self.records@.take(i + 1)).remove(path@));
                }
            } else {
                assert(records_map(kept@) =~= records_map(self.records@.take(i + 1)).remove(path@));
            }
            i += 1;
        }
        assert(self.records@.take(self.records@.len() as int) =~= self.records@);
        let ghost before = kept@;
        kept.push((path.duplicate(), index));
        proof {
            assert(kept@.drop_last() =~= before);
            assert(records_map(kept@) =~= records_map(self.records@).insert(path@, index));
        }
        self.records = kept;
    }
}

} // verus!
