use vstd::prelude::*;

verus! {

/// One item of a directory listing.
#[derive(Debug, Clone, PartialEq, Eq)]
pub struct File {
    /// The item's name within its directory.
    pub name: String,
    /// Whether the item is a directory.
    pub is_dir: bool,
    /// The last modification, in seconds since the Unix epoch, where known.
    pub modified: Option<i64>,
}

impl File {
    /// An equal copy of this item.
    pub fn duplicate(&self) -> (r: File)
        ensures
            r == *self,
    {
        File { name: self.name.clone(), is_dir: self.is_dir, modified: self.modified }
    }
}

/// Why a navigation step could not be taken.
#[derive(Debug, Clone, Copy, PartialEq, Eq, Structural)]
pub enum NavError {
    /// A directory's entries could not be enumerated.
    ListingFailure,
    /// An entry's metadata could not be read.
    MetadataFailure,
    /// A path did not lead to a directory.
    PathResolutionFailure,
}

pub open spec fn is_dir_entry(f: File) -> bool {
    f.is_dir
}

pub open spec fn is_plain_entry(f: File) -> bool {
    !f.is_dir
}

/// A listing in display order: the directories first, then the other items,
/// each group in the order of the listing.
pub open spec fn dirs_first(s: Seq<File>) -> Seq<File> {
    s.filter(|f: File| is_dir_entry(f)) + s.filter(|f: File| is_plain_entry(f))
}

/// The items of `items` in display order (see `dirs_first`).
pub fn sort_entries(items: &Vec<File>) -> (r: Vec<File>)
    ensures
        r@ == dirs_first(items@),
{
    let mut dirs: Vec<File> = Vec::new();
    let mut files: Vec<File> = Vec::new();
    let mut i: usize = 0;
    while i < items.len()
        invariant
            0 <= i <= items@.len(),
            dirs@ == items@.take(i as int).filter(|f: File| is_dir_entry(f)),
            files@ == items@.take(i as int).filter(|f: File| is_plain_entry(f)),
        decreases items@.len() - i,
    {
        let f = items[i].duplicate();
        proof {
            items@.lemma_take_succ_push(i as int);
            items@.take(i as int).lemma_filter_push(items@[i as int], |f: File| is_dir_entry(f));
            items@.take(i as int).lemma_filter_push(items@[i as int], |f: File| is_plain_entry(f));
        }
        if f.is_dir {
            dirs.push(f);
        } else {
            files.push(f);
        }
        i += 1;
    }
    assert(items@.take(items@.len() as int) =~= items@);
    dirs.append(&mut files);
    dirs
}

proof fn lemma_filter_all<A>(s: Seq<A>, p: spec_fn(A) -> bool)
    requires
        forall|i: int| 0 <= i < s.len() ==> p(#[trigger] s[i]),
    ensures
        s.filter(p) == s,
    decreases s.len(),
{
    reveal(Seq::filter);
    if s.len() > 0 {
        lemma_filter_all(s.drop_last(), p);
        assert(s.drop_last().push(s.last()) =~= s);
    }
}

proof fn lemma_filter_none<A>(s: Seq<A>, p: spec_fn(A) -> bool)
    requires
        forall|i: int| 0 <= i < s.len() ==> !p(#[trigger] s[i]),
    ensures
        s.filter(p) == Seq::<A>::empty(),
{
    s.lemma_all_neg_filter_empty(p);
}

/// Display order puts every directory before every other item, and keeps the
/// relative order of the directories, and of the other items, as listed.
pub proof fn lemma_dirs_first_order(s: Seq<File>)
    ensures
        forall|i: int, j: int|
            0 <= i < j < dirs_first(s).len() && (#[trigger] dirs_first(s)[j]).is_dir
                ==> (#[trigger] dirs_first(s)[i]).is_dir,
        dirs_first(s).filter(|f: File| is_dir_entry(f)) == s.filter(|f: File| is_dir_entry(f)),
        dirs_first(s).filter(|f: File| is_plain_entry(f)) == s.filter(|f: File| is_plain_entry(f)),
        dirs_first(s).len() == s.len(),
{
    let pd = |f: File| is_dir_entry(f);
    let pf = |f: File| is_plain_entry(f);
    let d = s.filter(pd);
    let f = s.filter(pf);
    broadcast use vstd::seq_lib::group_filter_ensures;
    let out = dirs_first(s);
    assert(out == d + f);
    assert forall|i: int, j: int|
        0 <= i < j < out.len() && (#[trigger] out[j]).is_dir implies (#[trigger] out[i]).is_dir by {
        if j >= d.len() {
            assert(out[j] == f[j - d.len()]);
        }
        assert(i < d.len());
        assert(out[i] == d[i]);
    }
    Seq::filter_distributes_over_add(d, f, pd);
    Seq::filter_distributes_over_add(d, f, pf);
    lemma_filter_all(d, pd);
    lemma_filter_none(f, pd);
    lemma_filter_none(d, pf);
    lemma_filter_all(f, pf);
    assert(d + Seq::<File>::empty() =~= d);
    assert(Seq::<File>::empty() + f =~= f);
    lemma_partition_len(s);
}

pub(crate) proof fn lemma_partition_len(s: Seq<File>)
    ensures
        s.filter(|f: File| is_dir_entry(f)).len() + s.filter(|f: File| is_plain_entry(f)).len() == s.len(),
        dirs_first(s).len() == s.len(),
    decreases s.len(),
{
    if s.len() > 0 {
        lemma_partition_len(s.drop_last());
        assert(s.drop_last().push(s.last()) =~= s);
        s.drop_last().lemma_filter_push(s.last(), |f: File| is_dir_entry(f));
        s.drop_last().lemma_filter_push(s.last(), |f: File| is_plain_entry(f));
    }
}

} // verus!
