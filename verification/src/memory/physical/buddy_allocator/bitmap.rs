use vstd::prelude::*;

verus! {

/// The mask that selects bit `index % 8` inside its byte.
pub open spec fn bit_mask(index: int) -> u8 {
    (1u8 << ((index % 8) as u8)) as u8
}

/// Whether bit `index` is set in a sequence of bytes, bit 0 being the least
/// significant bit of byte 0.
pub open spec fn bit_at(bytes: Seq<u8>, index: int) -> bool {
    bytes[index / 8] & bit_mask(index) != 0
}

proof fn lemma_masks(byte: u8, i: u8, j: u8)
    requires
        i < 8,
        j < 8,
    ensures
        (byte | (1u8 << i)) & (1u8 << i) != 0,
        (byte & !(1u8 << i)) & (1u8 << i) == 0,
        i != j ==> (byte | (1u8 << i)) & (1u8 << j) == byte & (1u8 << j),
        i != j ==> (byte & !(1u8 << i)) & (1u8 << j) == byte & (1u8 << j),
{
    assert((byte | (1u8 << i)) & (1u8 << i) != 0) by (bit_vector)
        requires
            i < 8,
    ;
    assert((byte & !(1u8 << i)) & (1u8 << i) == 0) by (bit_vector)
        requires
            i < 8,
    ;
    assert(i != j ==> (byte | (1u8 << i)) & (1u8 << j) == byte & (1u8 << j)) by (bit_vector)
        requires
            i < 8,
            j < 8,
    ;
    assert(i != j ==> (byte & !(1u8 << i)) & (1u8 << j) == byte & (1u8 << j)) by (bit_vector)
        requires
            i < 8,
            j < 8,
    ;
}

/// A fixed-size array of bits, stored eight to a byte.
pub struct BitMap {
    bytes: Vec<u8>,
}

impl BitMap {
    /// The bits of the map, in index order.
    pub closed spec fn view(&self) -> Seq<bool> {
        Seq::new((self.bytes@.len() * 8) as nat, |i: int| bit_at(self.bytes@, i))
    }

    /// The number of bytes that back the map.
    pub closed spec fn byte_count(&self) -> nat {
        self.bytes@.len()
    }

    /// A map of `byte_count * 8` bits, all clear.
    pub fn new(byte_count: usize) -> (map: BitMap)
        ensures
            map.byte_count() == byte_count,
            map@.len() == byte_count * 8,
            forall|i: int| 0 <= i < map@.len() ==> !map@[i],
    {
        let mut bytes: Vec<u8> = Vec::new();
        let mut filled: usize = 0;
        while filled < byte_count
            invariant
                filled <= byte_count,
                bytes@.len() == filled,
                forall|k: int| 0 <= k < filled ==> bytes@[k] == 0u8,
            decreases byte_count - filled,
        {
            bytes.push(0u8);
            filled = filled + 1;
        }
        let map = BitMap { bytes };
        assert forall|i: int| 0 <= i < map@.len() implies !map@[i] by {
            let m = bit_mask(i);
            assert(0u8 & m == 0) by (bit_vector);
        }
        map
    }

    fn get_byte_index(index: usize) -> (byte_index: usize)
        ensures
            byte_index == index / 8,
    {
        index / 8
    }

    fn get_bit_mask(index: usize) -> (mask: u8)
        ensures
            mask == bit_mask(index as int),
            mask == 1u8 << ((index % 8) as u8),
    {
        let shift: u8 = (index % 8) as u8;
        assert(1u8 << shift == (1u8 << shift) as u8);
        1u8 << shift
    }

    /// The bit at `index`, or `None` when `index` lies past the end.
    pub fn get_bit(&self, index: usize) -> (bit: Option<bool>)
        ensures
            index < self@.len() ==> bit == Some(self@[index as int]),
            index >= self@.len() ==> bit.is_none(),
    {
        let byte_index = Self::get_byte_index(index);
        let mask = Self::get_bit_mask(index);
        if byte_index < self.bytes.len() {
            Some((self.bytes[byte_index] & mask) != 0)
        } else {
            None
        }
    }

    /// Stores `value` at `index` and leaves every other bit as it was, or
    /// returns `None` and changes nothing when `index` lies past the end.
    pub fn set_bit(&mut self, index: usize, value: bool) -> (done: Option<()>)
        ensures
            final(self)@.len() == old(self)@.len(),
            final(self).byte_count() == old(self).byte_count(),
            index < old(self)@.len() ==> done.is_some() && final(self)@ == old(self)@.update(
                index as int,
                value,
            ),
            index >= old(self)@.len() ==> done.is_none() && final(self)@ == old(self)@,
    {
        let byte_index = Self::get_byte_index(index);
        let mask = Self::get_bit_mask(index);
        if byte_index < self.bytes.len() {
            let byte = self.bytes[byte_index];
            let updated: u8 = if value {
                byte | mask
            } else {
                byte & !mask
            };
            self.bytes.set(byte_index, updated);
            proof {
                let shift = (index % 8) as u8;
                assert forall|i: int| 0 <= i < final(self)@.len() implies final(self)@[i] == old(self)@.update(index as int, value)[i] by {
                    let other = (i % 8) as u8;
                    lemma_masks(byte, shift, other);
                    if i / 8 == byte_index as int {
                        if i != index as int {
                            assert(other != shift);
                        }
                    }
                }
                assert(final(self)@ =~= old(self)@.update(index as int, value));
            }
            Some(())
        } else {
            None
        }
    }
}

} // verus!
