//! Slices read from packed, possibly unaligned storage.
use vstd::prelude::*;
use crate::data_types::bytes::{le_at, read_le};

verus! {

/// A slice of elements read from packed storage.
///
/// Inside a packed structure the elements of an array field may sit at any
/// byte offset. `UnalignedSlice` holds copies of the elements, read one by
/// one, so that they can be handed out by value. The model is the sequence
/// of elements.
#[derive(Debug)]
pub struct UnalignedSlice<T: Copy> {
    data: Vec<T>,
}

impl<T: Copy> View for UnalignedSlice<T> {
    type V = Seq<T>;

    closed spec fn view(&self) -> Seq<T> {
        self.data@
    }
}

impl<T: Copy> UnalignedSlice<T> {
    /// A slice holding `elements`, in order.
    pub fn from_elements(elements: Vec<T>) -> (r: Self)
        ensures
            r@ == elements@,
    {
        UnalignedSlice { data: elements }
    }

    /// Returns true if the slice has a length of 0.
    pub fn is_empty(&self) -> (r: bool)
        ensures
            r == (self@.len() == 0),
    {
        self.data.len() == 0
    }

    /// Returns the number of elements in the slice.
    pub fn len(&self) -> (r: usize)
        ensures
            r == self@.len(),
    {
        self.data.len()
    }

    /// Returns the element at `index`, or `None` if the `index` is out of
    /// bounds.
    pub fn get(&self, index: usize) -> (r: Option<T>)
        ensures
            index < self@.len() ==> r == Some(self@[index as int]),
            index >= self@.len() ==> r is None,
    {
        if index < self.data.len() {
            Some(self.data[index])
        } else {
            None
        }
    }

    /// Returns an iterator over the slice, from start to end.
    pub fn iter(&self) -> (r: UnalignedSliceIter<'_, T>)
        ensures
            r.slice@ == self@,
            r.index == 0,
    {
        UnalignedSliceIter { slice: self, index: 0 }
    }

    /// Copies the elements into `dest`, which must have the same length.
    pub fn copy_to(&self, dest: &mut [T])
        requires
            old(dest)@.len() == self@.len(),
        ensures
            final(dest)@ == self@,
    {
        let n = dest.len();
        let mut i: usize = 0;
        while i < n
            invariant
                n == dest@.len(),
                n == self@.len(),
                i <= n,
                forall|j: int| 0 <= j < i ==> dest@[j] == self@[j],
            decreases n - i,
        {
            dest[i] = self.data[i];
            i = i + 1;
        }
        proof {
            assert(dest@ =~= self@);
        }
    }

    /// Copies the elements into a new `Vec`.
    pub fn to_vec(&self) -> (r: Vec<T>)
        ensures
            r@ == self@,
    {
        let mut out: Vec<T> = Vec::new();
        let mut i: usize = 0;
        while i < self.data.len()
            invariant
                i <= self@.len(),
                out@ =~= self@.subrange(0, i as int),
            decreases self@.len() - i,
        {
            out.push(self.data[i]);
            i = i + 1;
        }
        proof {
            assert(self@.subrange(0, self@.len() as int) =~= self@);
        }
        out
    }

    /// Turns the slice into an iterator over its elements, from start to
    /// end.
    pub fn into_iter(self) -> (r: UnalignedSliceIntoIter<T>)
        ensures
            r.slice@ == self@,
            r.index == 0,
    {
        UnalignedSliceIntoIter { slice: self, index: 0 }
    }
}

impl UnalignedSlice<u16> {
    /// Reads `len` little-endian `u16` values packed at the start of
    /// `bytes`.
    pub fn from_le_bytes(bytes: &[u8], len: usize) -> (r: Self)
        requires
            2 * len <= bytes.len(),
        ensures
            r@.len() == len,
            forall|i: int| 0 <= i < len ==> r@[i] as nat == #[trigger] le_at(bytes@, 2 * i, 2),
    {
        let mut data: Vec<u16> = Vec::new();
        let mut i: usize = 0;
        while i < len
            invariant
                2 * len <= bytes.len(),
                i <= len,
                data@.len() == i,
                forall|j: int| 0 <= j < i ==> data@[j] as nat == #[trigger] le_at(bytes@, 2 * j, 2),
            decreases len - i,
        {
            let v = read_le(bytes, 2 * i, 2);
            proof {
                crate::data_types::bytes::lemma_pow256_values();
            }
            data.push(v as u16);
            i = i + 1;
        }
        UnalignedSlice { data }
    }
}

impl UnalignedSlice<u32> {
    /// Reads `len` little-endian `u32` values packed at the start of
    /// `bytes`.
    pub fn from_le_bytes(bytes: &[u8], len: usize) -> (r: Self)
        requires
            4 * len <= bytes.len(),
        ensures
            r@.len() == len,
            forall|i: int| 0 <= i < len ==> r@[i] as nat == #[trigger] le_at(bytes@, 4 * i, 4),
    {
        let mut data: Vec<u32> = Vec::new();
        let mut i: usize = 0;
        while i < len
            invariant
                4 * len <= bytes.len(),
                i <= len,
                data@.len() == i,
                forall|j: int| 0 <= j < i ==> data@[j] as nat == #[trigger] le_at(bytes@, 4 * j, 4),
            decreases len - i,
        {
            let v = read_le(bytes, 4 * i, 4);
            proof {
                crate::data_types::bytes::lemma_pow256_values();
            }
            data.push(v as u32);
            i = i + 1;
        }
        UnalignedSlice { data }
    }
}

/// Iterator over a borrowed [`UnalignedSlice`].
pub struct UnalignedSliceIter<'a, T: Copy> {
    pub slice: &'a UnalignedSlice<T>,
    pub index: usize,
}

impl<'a, T: Copy> UnalignedSliceIter<'a, T> {
    /// The next element, if any is left.
    pub fn next(&mut self) -> (r: Option<T>)
        ensures
            final(self).slice == old(self).slice,
            old(self).index < old(self).slice@.len() ==> {
                &&& r == Some(old(self).slice@[old(self).index as int])
                &&& final(self).index == old(self).index + 1
            },
            old(self).index >= old(self).slice@.len() ==> r is None && final(self).index
                == old(self).index,
    {
        if self.index < self.slice.len() {
            let output = self.slice.get(self.index);
            self.index = self.index + 1;
            output
        } else {
            None
        }
    }
}

/// Iterator that owns an [`UnalignedSlice`].
pub struct UnalignedSliceIntoIter<T: Copy> {
    pub slice: UnalignedSlice<T>,
    pub index: usize,
}

impl<T: Copy> UnalignedSliceIntoIter<T> {
    /// The next element, if any is left.
    pub fn next(&mut self) -> (r: Option<T>)
        ensures
            final(self).slice@ == old(self).slice@,
            old(self).index < old(self).slice@.len() ==> {
                &&& r == Some(old(self).slice@[old(self).index as int])
                &&& final(self).index == old(self).index + 1
            },
            old(self).index >= old(self).slice@.len() ==> r is None && final(self).index
                == old(self).index,
    {
        if self.index < self.slice.len() {
            let output = self.slice.get(self.index);
            self.index = self.index + 1;
            output
        } else {
            None
        }
    }
}

} // verus!
