use vstd::prelude::*;

verus! {

/// A fixed-capacity sequence of optional MIDI notes, one per sequencer
/// step, kept away from the allocator while it stays within its inline
/// capacity. The smallvec it holds is opaque here; what it holds is named
/// by `notes_of` and stated by the contracts of the methods below.
#[verifier::external_body]
pub struct NoteBuf {
    buf: smallvec::SmallVec<[Option<u8>; 128]>,
}

/// What a note buffer holds: one optional MIDI note number per step.
pub uninterp spec fn notes_of(v: &NoteBuf) -> Seq<Option<u8>>;

impl View for NoteBuf {
    type V = Seq<Option<u8>>;

    open spec fn view(&self) -> Seq<Option<u8>> {
        notes_of(self)
    }
}

impl NoteBuf {
    /// Relies on smallvec::SmallVec::new: a freshly built vector is empty.
    #[verifier::external_body]
    fn new_empty() -> (r: NoteBuf)
        ensures
            notes_of(&r) == Seq::<Option<u8>>::empty(),
    {
        NoteBuf { buf: smallvec::SmallVec::new() }
    }

    /// Relies on smallvec::SmallVec::len: the number of items held.
    #[verifier::external_body]
    pub fn len(&self) -> (n: usize)
        ensures
            n == notes_of(self).len(),
    {
        self.buf.len()
    }

    /// Relies on indexing through smallvec's Deref to a slice: the item at
    /// `i`.
    #[verifier::external_body]
    pub fn get(&self, i: usize) -> (r: Option<u8>)
        requires
            i < notes_of(self).len(),
        ensures
            r == notes_of(self)[i as int],
    {
        self.buf[i]
    }

    /// Relies on indexing through smallvec's DerefMut to a slice: replaces
    /// the item at `i` and keeps every other item.
    #[verifier::external_body]
    pub fn set(&mut self, i: usize, x: Option<u8>)
        requires
            i < notes_of(old(self)).len(),
        ensures
            notes_of(final(self)) == notes_of(old(self)).update(i as int, x),
    {
        self.buf[i] = x;
    }

    /// Relies on smallvec::SmallVec::resize: a longer vector keeps its
    /// items and fills the tail with clones of the given value; a shorter
    /// one is truncated. Grown steps are empty, kept steps are unchanged.
    #[verifier::external_body]
    pub fn resize(&mut self, n: usize)
        ensures
            notes_of(final(self)).len() == n,
            forall|i: int|
                0 <= i < n ==> notes_of(final(self))[i] == if i < notes_of(old(self)).len() {
                    notes_of(old(self))[i]
                } else {
                    None::<u8>
                },
    {
        self.buf.resize(n, None);
    }

    /// Build a buffer of `n` empty steps.
    pub fn new(n: usize) -> (r: NoteBuf)
        ensures
            r@ == Seq::new(n as nat, |i: int| None::<u8>),
    {
        let mut r = NoteBuf::new_empty();
        r.resize(n);
        proof {
            assert(r@ =~= Seq::new(n as nat, |i: int| None::<u8>));
        }
        r
    }

    /// Empty every step, keeping the length.
    pub fn clear_all(&mut self)
        ensures
            final(self)@.len() == old(self)@.len(),
            forall|i: int| 0 <= i < final(self)@.len() ==> final(self)@[i] == None::<u8>,
    {
        let n = self.len();
        let mut i: usize = 0;
        while i < n
            invariant
                n == self@.len(),
                i <= n,
                forall|j: int| 0 <= j < i ==> self@[j] == None::<u8>,
            decreases n - i,
        {
            self.set(i, None);
            i = i + 1;
        }
    }
}

} // verus!
