use vstd::prelude::*;

verus! {

/// A list of free memory regions, each known by its start address and
/// carrying one value of `T`. The head is the entry at index 0.
pub struct InlineFreeList<T> {
    nodes: Vec<(usize, T)>,
}

impl<T> InlineFreeList<T> {
    /// The start addresses on the list, head first.
    pub closed spec fn view(&self) -> Seq<usize> {
        Seq::new(self.nodes@.len(), |i: int| self.nodes@[i].0)
    }

    /// The values carried by the entries, in the order of the addresses.
    pub closed spec fn data(&self) -> Seq<T> {
        Seq::new(self.nodes@.len(), |i: int| self.nodes@[i].1)
    }

    /// The empty list.
    pub fn new() -> (list: Self)
        ensures
            list@ == Seq::<usize>::empty(),
            list.data() == Seq::<T>::empty(),
    {
        let list = InlineFreeList { nodes: Vec::new() };
        assert(list@ =~= Seq::<usize>::empty());
        assert(list.data() =~= Seq::<T>::empty());
        list
    }

    /// Puts the region at `free_addr` in front of all others.
    pub fn push_head(&mut self, free_addr: usize, data: T)
        ensures
            final(self)@ == old(self)@.insert(0, free_addr),
            final(self).data() == old(self).data().insert(0, data),
    {
        self.nodes.insert(0, (free_addr, data));
        assert(final(self)@ =~= old(self)@.insert(0, free_addr));
        assert(final(self).data() =~= old(self).data().insert(0, data));
    }

    /// Takes the head off the list and returns its address.
    pub fn pop_head(&mut self) -> (head: Option<usize>)
        ensures
            old(self)@.len() == 0 ==> head.is_none() && *final(self) == *old(self),
            old(self)@.len() > 0 ==> head == Some(old(self)@[0]) && final(self)@ == old(self)@.remove(0) && final(self).data() == old(self).data().remove(0),
    {
        if self.nodes.len() == 0 {
            None
        } else {
            let node = self.nodes.remove(0);
            assert(final(self)@ =~= old(self)@.remove(0));
            assert(final(self).data() =~= old(self).data().remove(0));
            Some(node.0)
        }
    }

    /// Puts the region at `free_addr` behind all others.
    pub fn push_tail(&mut self, free_addr: usize, data: T)
        ensures
            final(self)@ == old(self)@.push(free_addr),
            final(self).data() == old(self).data().push(data),
    {
        self.nodes.push((free_addr, data));
        assert(final(self)@ =~= old(self)@.push(free_addr));
        assert(final(self).data() =~= old(self).data().push(data));
    }

    /// Takes the last entry off the list and returns its address.
    pub fn pop_tail(&mut self) -> (tail: Option<usize>)
        ensures
            old(self)@.len() == 0 ==> tail.is_none() && *final(self) == *old(self),
            old(self)@.len() > 0 ==> tail == Some(old(self)@.last()) && final(self)@ == old(self)@.drop_last() && final(self).data() == old(self).data().drop_last(),
    {
        if self.nodes.len() == 0 {
            return None;
        }
        match self.nodes.pop() {
            Some(node) => {
                assert(final(self)@ =~= old(self)@.drop_last());
                assert(final(self).data() =~= old(self).data().drop_last());
                Some(node.0)
            },
            None => None,
        }
    }

    /// The position of the first entry whose address is `node_addr`.
    fn position(&self, node_addr: usize) -> (index: usize)
        requires
            self@.contains(node_addr),
        ensures
            index < self@.len(),
            self@[index as int] == node_addr,
            forall|k: int| 0 <= k < index ==> self@[k] != node_addr,
    {
        let count = self.nodes.len();
        let mut index: usize = 0;
        loop
            invariant
                count == self.nodes@.len(),
                index < self.nodes@.len(),
                self@.contains(node_addr),
                forall|k: int| 0 <= k < index ==> self@[k] != node_addr,
            decreases self.nodes@.len() - index,
        {
            if self.nodes[index].0 == node_addr {
                assert(self@[index as int] == node_addr);
                return index;
            }
            assert(self@[index as int] != node_addr);
            proof {
                let w = choose|w: int| 0 <= w < self@.len() && self@[w] == node_addr;
                assert(w > index);
            }
            index = index + 1;
        }
    }

    /// Takes the first entry at `node_addr` out of the list, wherever it stands.
    pub fn pop_at_address(&mut self, node_addr: usize)
        requires
            old(self)@.contains(node_addr),
        ensures
            final(self)@ == old(self)@.remove_value(node_addr),
            final(self).data() == old(self).data().remove(
                old(self)@.index_of_first(node_addr).unwrap(),
            ),
            final(self)@.len() == old(self)@.len() - 1,
    {
        let index = self.position(node_addr);
        proof {
            old(self)@.index_of_first_ensures(node_addr);
            let first = old(self)@.index_of_first(node_addr).unwrap();
            assert(first == index as int) by {
                if first < index as int {
                    assert(old(self)@[first] != node_addr);
                } else if first > index as int {
                    assert(old(self)@[index as int] == node_addr);
                }
            }
        }
        let _ = self.nodes.remove(index);
        assert(final(self)@ =~= old(self)@.remove(index as int));
        assert(final(self).data() =~= old(self).data().remove(index as int));
    }

    /// Takes the first entry whose value `f` accepts out of the list and
    /// returns its address; `None`, and no change, when `f` accepts none.
    pub fn pop_on<F: Fn(&T) -> bool>(&mut self, f: F) -> (found: Option<usize>)
        requires
            forall|value: &T| #[trigger] f.requires((value,)),
        ensures
            found matches Some(addr) ==> exists|i: int|
                0 <= i < old(self)@.len() && #[trigger] old(self)@[i] == addr && f.ensures(
                    (&old(self).data()[i],),
                    true,
                ) && (forall|k: int| 0 <= k < i ==> f.ensures((&#[trigger] old(self).data()[k],), false))
                    && final(self)@ == old(self)@.remove(i) && final(self).data() == old(self).data().remove(i),
            found.is_none() ==> final(self)@ == old(self)@ && final(self).data() == old(self).data() && forall|k: int|
                0 <= k < old(self)@.len() ==> f.ensures((&#[trigger] old(self).data()[k],), false),
    {
        let mut index: usize = 0;
        while index < self.nodes.len()
            invariant
                index <= self.nodes@.len(),
                *self == *old(self),
                forall|value: &T| #[trigger] f.requires((value,)),
                forall|k: int| 0 <= k < index ==> f.ensures((&#[trigger] self.data()[k],), false),
            decreases self.nodes@.len() - index,
        {
            let accepted = f(&self.nodes[index].1);
            assert(self.data()[index as int] == self.nodes@[index as int].1);
            if accepted {
                let node = self.nodes.remove(index);
                assert(final(self)@ =~= old(self)@.remove(index as int));
                assert(final(self).data() =~= old(self).data().remove(index as int));
                assert(old(self)@[index as int] == node.0);
                return Some(node.0);
            }
            index = index + 1;
        }
        None
    }

    /// The number of entries on the list.
    pub fn len(&self) -> (len: usize)
        ensures
            len == self@.len(),
    {
        self.nodes.len()
    }
}

} // verus!
