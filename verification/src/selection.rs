//! The operator's current transaction selection.
//!
//! The store holds an ordered sequence of identifier strings.  A write
//! replaces the whole sequence; a read returns a copy.  Nothing relates
//! the selection to any snapshot: callers may name identifiers that no
//! fetched set ever contained.

use vstd::prelude::*;

verus! {

/// Ordered sequence of operator-chosen transaction identifiers.
///
/// Initialized empty; each write discards the previous sequence
/// entirely (replacement, never a merge).
pub struct SelectionStore {
    items: Vec<String>,
}

impl View for SelectionStore {
    type V = Seq<String>;

    closed spec fn view(&self) -> Seq<String> {
        self.items@
    }
}

/// Copies a sequence of identifier strings element by element.
fn copy_ids(v: &Vec<String>) -> (r: Vec<String>)
    ensures
        r@ == v@,
{
    let r = v.clone();
    proof {
        assert forall|i: int| 0 <= i < v@.len() implies v@[i] == r@[i] by {
            assert(cloned::<String>(v@[i], r@[i]));
        }
        assert(v@ =~= r@);
    }
    r
}

impl SelectionStore {
    /// The selection starts out empty at process start.
    pub fn new() -> (s: Self)
        ensures
            s@ == Seq::<String>::empty(),
    {
        SelectionStore { items: Vec::new() }
    }

    /// Replaces the whole selection with `items` and returns a copy of
    /// the accepted sequence as confirmation.  The previous selection
    /// is discarded entirely.
    pub fn replace(&mut self, items: Vec<String>) -> (echo: Vec<String>)
        ensures
            final(self)@ == items@,
            echo@ == items@,
    {
        let echo = copy_ids(&items);
        self.items = items;
        echo
    }

    /// Returns a copy of the current selection; the store is unchanged.
    pub fn read(&self) -> (r: Vec<String>)
        ensures
            r@ == self@,
    {
        copy_ids(&self.items)
    }
}

} // verus!
