//! The vector record: an owning handle to a fixed-length sequence of
//! 64-bit integers, with a length query, bounds-checked element access,
//! and a raw borrowed view of the whole buffer.

use vstd::prelude::*;

verus! {

/// The largest element count whose byte size (8 bytes per element) is
/// still representable as an allocation size. A creation request beyond
/// this bound is reported as a failure.
pub const MAX_LEN: i64 = 0x0FFF_FFFF_FFFF_FFFF;

/// An owning handle to a fixed-length sequence of 64-bit integers.
///
/// The length is fixed at creation; element values are freely mutable
/// through the bounds-checked setter. The abstract value of a record is
/// the sequence of its elements.
pub struct VecRec {
    len: i64,
    data: Vec<i64>,
}

impl View for VecRec {
    type V = Seq<i64>;

    closed spec fn view(&self) -> Seq<i64> {
        self.data@
    }
}

impl VecRec {
    /// The stored length always matches the buffer, and the byte size of
    /// the buffer is representable.
    #[verifier::type_invariant]
    spec fn well_formed(self) -> bool {
        self.len as int == self.data@.len() && self.len <= MAX_LEN
    }

    /// Create a vector of the specified length, every element zero.
    /// Fails exactly when the buffer's byte size is not representable;
    /// no record is returned in that case.
    pub fn new(len: i64) -> (r: Option<VecRec>)
        requires
            0 <= len,
        ensures
            r is Some <==> len <= MAX_LEN,
            r is Some ==> r.unwrap()@ == Seq::new(len as nat, |i: int| 0i64),
    {
        if len > MAX_LEN {
            return None;
        }
        let mut data: Vec<i64> = Vec::new();
        let mut i: i64 = 0;
        while i < len
            invariant
                0 <= i <= len,
                data@ == Seq::new(i as nat, |j: int| 0i64),
            decreases len - i,
        {
            data.push(0);
            i = i + 1;
            proof {
                assert(data@ =~= Seq::new(i as nat, |j: int| 0i64));
            }
        }
        Some(VecRec { len, data })
    }

    /// Retrieve the element at `index` and store it at `dest`.
    /// Returns 0 (out of bounds, `dest` untouched) or 1 (successful).
    pub fn get_vec_element(&self, index: i64, dest: &mut i64) -> (r: usize)
        ensures
            0 <= index < self@.len() ==> r == 1 && *final(dest) == self@[index as int],
            !(0 <= index < self@.len()) ==> r == 0 && *final(dest) == *old(dest),
    {
        proof {
            use_type_invariant(&*self);
        }
        if index < 0 || index >= self.len {
            return 0;
        }
        // The length call bounds the buffer by usize::MAX, which makes the
        // cast of the in-range index exact on every target width.
        let n: usize = self.data.len();
        assert((index as int) < (n as int));
        *dest = self.data[index as usize];
        1
    }

    /// Store `val` at the element at `index`.
    /// Returns 0 (out of bounds, record unmodified) or 1 (successful).
    pub fn set_vec_element(&mut self, index: i64, val: i64) -> (r: usize)
        ensures
            0 <= index < old(self)@.len() ==> r == 1 && final(self)@ == old(self)@.update(
                index as int,
                val,
            ),
            !(0 <= index < old(self)@.len()) ==> r == 0 && final(self)@ == old(self)@,
    {
        proof {
            use_type_invariant(&*self);
        }
        if index < 0 || index >= self.len {
            return 0;
        }
        // The length call bounds the buffer by usize::MAX, which makes the
        // cast of the in-range index exact on every target width.
        let n: usize = self.data.len();
        assert((index as int) < (n as int));
        self.data[index as usize] = val;
        1
    }

    /// Return the length of the vector.
    pub fn vec_length(&self) -> (r: i64)
        ensures
            r as int == self@.len(),
    {
        proof {
            use_type_invariant(&*self);
        }
        self.len
    }

    /// Return a borrowed view of the start of the vector: the whole
    /// buffer as a slice, with no bounds checking on later indexing.
    /// The borrow is tied to the record, so the view cannot outlive it.
    pub fn get_vec_start(&self) -> (r: &[i64])
        ensures
            r@ == self@,
    {
        self.data.as_slice()
    }
}

/// Round-trip law: writing a value at a valid index and then reading that
/// index yields exactly the written value. Stated over the sequence views
/// that `set_vec_element` and `get_vec_element` promise.
pub proof fn lemma_set_get_round_trip(s: Seq<i64>, index: int, val: i64)
    requires
        0 <= index < s.len(),
    ensures
        s.update(index, val)[index] == val,
{
}

} // verus!
