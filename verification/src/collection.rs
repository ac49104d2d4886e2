//! The ordered, append-only sequence of bookmarks, as a plain sequential value.

use crate::replay::after_appends;
use crate::replay::lemma_one_append;
use vstd::prelude::*;

verus! {

/// An ordered sequence of text items. Items are only ever added at the end;
/// nothing is removed or changed once it is in.
#[derive(Debug)]
pub struct BookmarkCollection {
    items: Vec<String>,
}

impl View for BookmarkCollection {
    type V = Seq<Seq<char>>;

    /// The items as a sequence of character sequences, oldest first.
    closed spec fn view(&self) -> Seq<Seq<char>> {
        self.items.deep_view()
    }
}

impl BookmarkCollection {
    /// An empty collection.
    pub fn new() -> (r: Self)
        ensures
            r@ == Seq::<Seq<char>>::empty(),
    {
        let r = BookmarkCollection { items: Vec::new() };
        assert(r.items.deep_view() =~= Seq::<Seq<char>>::empty());
        r
    }

    /// Puts `item` at the end; everything that was there stays, in place.
    /// `item` is taken as it is: empty or not, there already or not.
    pub fn append(&mut self, item: String)
        ensures
            final(self)@ == old(self)@.push(item@),
            final(self)@ == after_appends(old(self)@, seq![item@]),
    {
        self.items.push(item);
        proof {
            assert(self.items.deep_view() =~= old(self).items.deep_view().push(item@));
            lemma_one_append(old(self)@, item@);
        }
    }

    /// An independent copy of the items, in order.
    pub fn snapshot(&self) -> (r: Vec<String>)
        ensures
            r.deep_view() == self@,
    {
        let r = self.items.clone();
        assert(r.deep_view() =~= self.items.deep_view());
        r
    }
}

} // verus!
