//! A fixed-length buffer with checked and unchecked indexed access.
//!
//! `RaceBuf` is a fixed-length, heap-allocated container of copyable
//! elements. Its length is set at construction and never changes.
//! Access is indexed: the checked operations `get` and `set` turn an
//! out-of-range index into an absent value or a silent no-op, while the
//! unchecked operations demand an in-range index up front, so that a
//! caller must prove the index valid before the access happens.
//!
//! The buffer is modelled by the sequence of its elements; every
//! operation's contract says exactly which elements are read or
//! replaced, and that the length is left alone.

use vstd::prelude::*;

verus! {

/// A fixed-length buffer of copyable elements.
///
/// The backing storage is allocated once, at construction, and the
/// element count reported by [`RaceBuf::len`] equals its length for the
/// buffer's whole lifetime.
pub struct RaceBuf<T>(Vec<T>);

impl<T> View for RaceBuf<T> {
    type V = Seq<T>;

    closed spec fn view(&self) -> Seq<T> {
        self.0@
    }
}

/// The sequence of `size` copies of `value`: what a freshly constructed
/// buffer holds.
pub open spec fn filled<T>(size: nat, value: T) -> Seq<T> {
    Seq::new(size, |i: int| value)
}

/// What a checked read at `idx` returns: the element when `idx` is in
/// range, and nothing otherwise.
pub open spec fn spec_get<T>(s: Seq<T>, idx: int) -> Option<T> {
    if 0 <= idx < s.len() {
        Some(s[idx])
    } else {
        None
    }
}

/// What the buffer holds after a checked write at `idx`: the element at
/// `idx` replaced when `idx` is in range, and the buffer unchanged
/// otherwise.
pub open spec fn spec_set<T>(s: Seq<T>, idx: int, value: T) -> Seq<T> {
    if 0 <= idx < s.len() {
        s.update(idx, value)
    } else {
        s
    }
}

impl<T: Copy> RaceBuf<T> {
    /// Create a new buffer of `size` elements, each a copy of `value`.
    pub fn new_with_value(size: usize, value: T) -> (buf: RaceBuf<T>)
        ensures
            buf@ == filled(size as nat, value),
    {
        let mut v: Vec<T> = Vec::with_capacity(size);
        let mut i: usize = 0;
        while i < size
            invariant
                i <= size,
                v@ == filled(i as nat, value),
            decreases size - i,
        {
            v.push(value);
            i = i + 1;
            proof {
                assert(v@ =~= filled(i as nat, value));
            }
        }
        RaceBuf(v)
    }

    /// Create a new buffer that takes ownership of an existing vector;
    /// the vector's elements become the buffer's, without a copy.
    pub fn from_vec(vec: Vec<T>) -> (buf: RaceBuf<T>)
        ensures
            buf@ == vec@,
    {
        RaceBuf(vec)
    }

    /// Consume the buffer and hand back its backing storage as a plain
    /// vector, with every element as it stood.
    pub fn into_inner(self) -> (v: Vec<T>)
        ensures
            v@ == self@,
    {
        self.0
    }

    /// The fixed element count of the buffer.
    pub fn len(&self) -> (n: usize)
        ensures
            n == self@.len(),
    {
        self.0.len()
    }

    /// Retrieve the value stored at `idx`, or `None` when `idx` is
    /// out of bounds.
    pub fn get(&self, idx: usize) -> (r: Option<T>)
        ensures
            r == spec_get(self@, idx as int),
    {
        if idx >= self.0.len() {
            None
        } else {
            Some(self.get_unchecked(idx))
        }
    }

    /// Retrieve the value stored at `idx` without a bounds check: the
    /// caller proves `idx` in range instead.
    pub fn get_unchecked(&self, idx: usize) -> (r: T)
        requires
            idx < self@.len(),
        ensures
            r == self@[idx as int],
    {
        self.0[idx]
    }

    /// Store `value` at `idx`; when `idx` is out of bounds the call is
    /// a no-op and the buffer is left untouched.
    pub fn set(&mut self, idx: usize, value: T)
        ensures
            final(self)@ == spec_set(old(self)@, idx as int, value),
    {
        if idx >= self.0.len() {
            return;
        } else {
            self.set_unchecked(idx, value);
        }
    }

    /// Store `value` at `idx` without a bounds check: the caller proves
    /// `idx` in range instead.
    pub fn set_unchecked(&mut self, idx: usize, value: T)
        requires
            idx < old(self)@.len(),
        ensures
            final(self)@ == old(self)@.update(idx as int, value),
    {
        self.0[idx] = value;
    }
}

impl<T: Copy + Default> RaceBuf<T> {
    /// Create a new buffer of `size` elements, each the default value
    /// of `T`: the same buffer that `new_with_value` builds from that
    /// value.
    pub fn new(size: usize) -> (buf: RaceBuf<T>)
        ensures
            buf@.len() == size,
            exists|d: T|
                #[trigger] call_ensures(T::default, (), d) && buf@ == filled(size as nat, d),
    {
        let d = T::default();
        RaceBuf::new_with_value(size, d)
    }
}

/// Every in-range read of a freshly filled buffer returns the fill
/// value; every out-of-range read returns nothing.
pub proof fn lemma_filled_get<T>(size: nat, value: T, idx: int)
    ensures
        0 <= idx < size ==> spec_get(filled(size, value), idx) == Some(value),
        idx < 0 || idx >= size ==> spec_get(filled(size, value), idx) == None::<T>,
{
}

/// Round trip: an in-range write followed by a read of the same index
/// returns the written value.
pub proof fn lemma_set_get_round_trip<T>(s: Seq<T>, idx: int, value: T)
    requires
        0 <= idx < s.len(),
    ensures
        spec_get(spec_set(s, idx, value), idx) == Some(value),
{
}

/// A write touches no other index: a read anywhere else returns what it
/// returned before the write.
pub proof fn lemma_set_frame<T>(s: Seq<T>, idx: int, other: int, value: T)
    requires
        other != idx,
    ensures
        spec_get(spec_set(s, idx, value), other) == spec_get(s, other),
{
}

/// An out-of-range write has no observable effect: the buffer is left
/// exactly as it was, so every read returns what it returned before.
pub proof fn lemma_set_out_of_range<T>(s: Seq<T>, idx: int, value: T)
    requires
        idx < 0 || idx >= s.len(),
    ensures
        spec_set(s, idx, value) == s,
        forall|other: int| spec_get(spec_set(s, idx, value), other) == spec_get(s, other),
{
}

/// No write changes the element count: the length reported after any
/// number of writes is the length the buffer was constructed with.
pub proof fn lemma_set_preserves_len<T>(s: Seq<T>, idx: int, value: T)
    ensures
        spec_set(s, idx, value).len() == s.len(),
{
}

/// Round trip: a buffer built from a vector gives that vector back
/// unchanged. `input` is the view of the vector handed to `from_vec`,
/// `buffer` the view of the buffer it builds, and `output` the view of
/// the vector `into_inner` returns; the two contracts force the output
/// to hold exactly the input's elements.
pub proof fn lemma_from_vec_round_trip<T>(input: Seq<T>, buffer: Seq<T>, output: Seq<T>)
    requires
        buffer == input,
        output == buffer,
    ensures
        output == input,
        output.len() == input.len(),
        forall|i: int| 0 <= i < input.len() ==> output[i] == input[i],
{
}

} // verus!
