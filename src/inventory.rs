use vstd::prelude::*;

use crate::item::Item;

verus! {

/// Some item of `s` has identifier `id`.
pub open spec fn holds_id(s: Seq<Item>, id: u128) -> bool {
    exists|i: int| 0 <= i < s.len() && #[trigger] s[i].id == id
}

/// `i` is the position of the first item of `s` with identifier `id`.
pub open spec fn is_first_id(s: Seq<Item>, id: u128, i: int) -> bool {
    &&& 0 <= i < s.len()
    &&& s[i].id == id
    &&& forall|j: int| 0 <= j < i ==> #[trigger] s[j].id != id
}

/// The position of the first item with identifier `id` (meaningful when `holds_id(s, id)`).
pub open spec fn first_id(s: Seq<Item>, id: u128) -> int {
    choose|i: int| is_first_id(s, id, i)
}

/// An ordered collection of owned items.
#[derive(Debug)]
pub struct Inventory {
    pub(crate) items: Vec<Item>,
}

impl View for Inventory {
    type V = Seq<Item>;

    closed spec fn view(&self) -> Seq<Item> {
        self.items@
    }
}

impl Inventory {
    pub fn new() -> (r: Self)
        ensures
            r@ == Seq::<Item>::empty(),
    {
        Self { items: Vec::new() }
    }

    pub fn add(&mut self, item: Item)
        ensures
            final(self)@ == old(self)@.push(item),
    {
        self.items.push(item);
    }

    /// The items, in order.
    pub fn iter(&self) -> (r: std::slice::Iter<'_, Item>)
        ensures
            vstd::std_specs::iter::IteratorSpec::remaining(&r) == self@.as_ref(),
    {
        broadcast use vstd::std_specs::slice::axiom_spec_slice_iter;

        self.items.as_slice().iter()
    }

    pub fn len(&self) -> (r: usize)
        ensures
            r == self@.len(),
    {
        self.items.len()
    }

    /// The item at position `i`.
    pub fn get(&self, i: usize) -> (r: &Item)
        requires
            i < self@.len(),
        ensures
            *r == self@[i as int],
    {
        &self.items[i]
    }

    /// Position of the first item with the same identifier as `item`.
    pub fn position(&self, item: &Item) -> (r: Option<usize>)
        ensures
            r is Some <==> holds_id(self@, item.id),
            r is Some ==> is_first_id(self@, item.id, r.unwrap() as int) && first_id(self@, item.id)
                == r.unwrap() as int,
    {
        let mut i: usize = 0;
        while i < self.items.len()
            invariant
                i <= self.items.len(),
                forall|j: int| 0 <= j < i ==> #[trigger] self.items@[j].id != item.id,
            decreases self.items.len() - i,
        {
            if self.items[i] == *item {
                assert(is_first_id(self@, item.id, i as int));
                return Some(i);
            }
            i = i + 1;
        }
        None
    }

    /// Takes out the first item with the same identifier as `item`.
    pub fn take(&mut self, item: &Item) -> (r: Option<Item>)
        ensures
            r is Some <==> holds_id(old(self)@, item.id),
            match r {
                Some(x) => {
                    &&& x == old(self)@[first_id(old(self)@, item.id)]
                    &&& final(self)@ == old(self)@.remove(first_id(old(self)@, item.id))
                },
                None => final(self)@ == old(self)@,
            },
    {
        match self.position(item) {
            Some(i) => Some(self.items.remove(i)),
            None => None,
        }
    }
}

} // verus!
