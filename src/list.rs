use vstd::prelude::*;

verus! {

/// An ordered sequence with one movable cursor: the cursor is a valid index
/// while the sequence is non-empty, and absent while it is empty.
#[derive(Debug, PartialEq, Eq)]
pub struct StatefulList<T> {
    items: Vec<T>,
    selected: Option<usize>,
}

/// The cursor fits the length: absent exactly when there are no items, and in
/// range otherwise.
pub open spec fn cursor_fits(cursor: Option<usize>, len: nat) -> bool {
    match cursor {
        Some(i) => i < len,
        None => len == 0,
    }
}

/// Where the cursor lands when asked for index `i` in a list of `len` items.
pub open spec fn clamp_cursor(i: int, len: nat) -> Option<usize> {
    if 0 <= i < len {
        Some(i as usize)
    } else if len > 0 {
        Some(0)
    } else {
        None
    }
}

/// The cursor after one step forward in a list of `len` items.
pub open spec fn next_cursor(c: Option<usize>, len: nat) -> Option<usize> {
    match c {
        Some(i) => Some(if i + 1 >= len { 0usize } else { (i + 1) as usize }),
        None => None,
    }
}

/// The cursor after one step back in a list of `len` items.
pub open spec fn previous_cursor(c: Option<usize>, len: nat) -> Option<usize> {
    match c {
        Some(i) => Some(if i == 0 { (len - 1) as usize } else { (i - 1) as usize }),
        None => None,
    }
}

impl<T> StatefulList<T> {
    #[verifier::type_invariant]
    spec fn well_formed(self) -> bool {
        cursor_fits(self.selected, self.items@.len())
    }

    /// The items, in order.
    pub closed spec fn seq(self) -> Seq<T> {
        self.items@
    }

    /// The cursor.
    pub closed spec fn cursor(self) -> Option<usize> {
        self.selected
    }

    /// A list holding `items`, with the cursor on the first of them.
    pub fn new(items: Vec<T>) -> (r: StatefulList<T>)
        ensures
            r.seq() == items@,
            r.cursor() == clamp_cursor(0, items@.len()),
            cursor_fits(r.cursor(), r.seq().len()),
    {
        let selected = if items.len() > 0 { Some(0) } else { None };
        StatefulList { items, selected }
    }

    /// Moves the cursor one step forward, from the last item back to the first.
    pub fn next(&mut self)
        ensures
            final(self).seq() == old(self).seq(),
            final(self).cursor() == next_cursor(old(self).cursor(), old(self).seq().len()),
            cursor_fits(final(self).cursor(), final(self).seq().len()),
    {
        proof { use_type_invariant(&*self); }
        match self.selected {
            Some(i) => {
                let len = self.items.len();
                assert(i < len);
                let n = if i + 1 >= len { 0 } else { i + 1 };
                self.selected = Some(n);
            },
            None => {},
        }
    }

    /// Moves the cursor one step back, from the first item to the last.
    pub fn previous(&mut self)
        ensures
            final(self).seq() == old(self).seq(),
            final(self).cursor() == previous_cursor(old(self).cursor(), old(self).seq().len()),
            cursor_fits(final(self).cursor(), final(self).seq().len()),
    {
        proof { use_type_invariant(&*self); }
        match self.selected {
            Some(i) => {
                let n = if i == 0 { self.items.len() - 1 } else { i - 1 };
                self.selected = Some(n);
            },
            None => {},
        }
    }

    /// Puts the cursor on item `i`, or on the first item where `i` is out of range.
    pub fn select(&mut self, i: usize)
        ensures
            final(self).seq() == old(self).seq(),
            final(self).cursor() == clamp_cursor(i as int, old(self).seq().len()),
            cursor_fits(final(self).cursor(), final(self).seq().len()),
    {
        if i < self.items.len() {
            self.selected = Some(i);
        } else if self.items.len() > 0 {
            self.selected = Some(0);
        } else {
            self.selected = None;
        }
    }

    /// The cursor's index, absent for an empty list.
    pub fn index(&self) -> (r: Option<usize>)
        ensures
            r == self.cursor(),
            cursor_fits(r, self.seq().len()),
    {
        proof { use_type_invariant(self); }
        self.selected
    }

    /// The item under the cursor, absent for an empty list.
    pub fn current(&self) -> (r: Option<&T>)
        ensures
            match r {
                Some(x) => self.cursor() matches Some(i) && i < self.seq().len() && *x == self.seq()[i as int],
                None => self.cursor() is None && self.seq().len() == 0,
            },
    {
        proof { use_type_invariant(self); }
        match self.selected {
            Some(i) => Some(&self.items[i]),
            None => None,
        }
    }

    /// The items, in order.
    pub fn items(&self) -> (r: &Vec<T>)
        ensures
            r@ == self.seq(),
    {
        &self.items
    }

    /// The number of items.
    pub fn len(&self) -> (r: usize)
        ensures
            r == self.seq().len(),
    {
        self.items.len()
    }
}

/// Whatever sequence of moves is made, the cursor of a non-empty list stays in
/// range, since each kind of move takes a cursor in range to one in range.
pub proof fn lemma_moves_keep_cursor(len: nat, c: Option<usize>, i: usize)
    requires
        len > 0,
        cursor_fits(c, len),
    ensures
        cursor_fits(next_cursor(c, len), len),
        cursor_fits(previous_cursor(c, len), len),
        cursor_fits(clamp_cursor(i as int, len), len),
{
}

} // verus!
