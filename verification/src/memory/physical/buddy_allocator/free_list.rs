use vstd::prelude::*;

verus! {

/// A list of free blocks, each known by the address at which it starts.
/// The head is the entry at index 0.
pub struct FreeList {
    nodes: Vec<usize>,
}

impl FreeList {
    /// The start addresses on the list, head first.
    pub closed spec fn view(&self) -> Seq<usize> {
        self.nodes@
    }

    /// The empty list.
    pub fn new_empty() -> (list: Self)
        ensures
            list@ == Seq::<usize>::empty(),
    {
        Self { nodes: Vec::new() }
    }

    /// Takes the head off the list and returns its address.
    pub fn pop(&mut self) -> (head: Option<usize>)
        ensures
            old(self)@.len() == 0 ==> head.is_none() && final(self)@ == old(self)@,
            old(self)@.len() > 0 ==> head == Some(old(self)@[0]) && final(self)@ == old(self)@.remove(0),
    {
        if self.nodes.len() == 0 {
            None
        } else {
            Some(self.nodes.remove(0))
        }
    }

    /// The position of the first entry whose address is `node_addr`.
    fn position(&self, node_addr: usize) -> (index: usize)
        requires
            self@.contains(node_addr),
        ensures
            index < self@.len(),
            self@[index as int] == node_addr,
            forall|k: int| 0 <= k < index ==> self@[k] != node_addr,
    {
        let count = self.nodes.len();
        let mut index: usize = 0;
        loop
            invariant
                count == self.nodes@.len(),
                index < self.nodes@.len(),
                self@.contains(node_addr),
                forall|k: int| 0 <= k < index ==> self@[k] != node_addr,
            decreases self.nodes@.len() - index,
        {
            if self.nodes[index] == node_addr {
                return index;
            }
            proof {
                let w = choose|w: int| 0 <= w < self@.len() && self@[w] == node_addr;
                assert(w > index);
            }
            index = index + 1;
        }
    }

    /// Takes the first entry at `node_addr` out of the list, wherever it stands.
    pub fn remove_at_address(&mut self, node_addr: usize)
        requires
            old(self)@.contains(node_addr),
        ensures
            final(self)@ == old(self)@.remove_value(node_addr),
    {
        let index = self.position(node_addr);
        proof {
            old(self)@.index_of_first_ensures(node_addr);
            let first = old(self)@.index_of_first(node_addr).unwrap();
            if first < index as int {
                assert(old(self)@[first] != node_addr);
            }
        }
        let _ = self.nodes.remove(index);
    }

    /// Puts the block at `free_addr` in front of all others.
    pub fn insert(&mut self, free_addr: usize)
        ensures
            final(self)@ == old(self)@.insert(0, free_addr),
    {
        self.nodes.insert(0, free_addr);
    }
}

} // verus!
