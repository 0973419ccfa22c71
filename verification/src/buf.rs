//! Owned buffers whose address, capacity and initialized-prefix contract the
//! runtime relies on. An I/O operation consumes a buffer by value and returns
//! it by value paired with the result; on error the buffer comes back
//! unchanged, on success its initialized prefix is updated.

use vstd::prelude::*;

verus! {

/// A mutable read target: a region of fixed capacity with an initialized
/// prefix. The raw `write_ptr`/`set_init` pair of the kernel interface is
/// expressed here as one safe operation, `fill_prefix`, which writes bytes at
/// the start of the region and records them as the initialized prefix.
pub trait IoBufMut: Sized {
    /// Total capacity in bytes; stable while an operation is in flight.
    spec fn buf_capacity(&self) -> nat;

    /// The bytes of the initialized prefix.
    spec fn buf_init(&self) -> Seq<u8>;

    /// Well-formedness of the buffer.
    spec fn buf_wf(&self) -> bool;

    /// The initialized prefix never exceeds the capacity.
    proof fn lemma_init_within_capacity(&self)
        requires
            self.buf_wf(),
        ensures
            self.buf_init().len() <= self.buf_capacity(),
    ;

    /// Capacity in bytes.
    fn bytes_total(&self) -> (n: usize)
        requires
            self.buf_wf(),
        ensures
            n == self.buf_capacity(),
    ;

    /// Length of the initialized prefix.
    fn bytes_init(&self) -> (n: usize)
        requires
            self.buf_wf(),
        ensures
            n == self.buf_init().len(),
    ;

    /// Write `data` at the start of the region and record it as the
    /// initialized prefix. The capacity does not change.
    fn fill_prefix(&mut self, data: &[u8])
        requires
            old(self).buf_wf(),
            data@.len() <= old(self).buf_capacity(),
        ensures
            final(self).buf_wf(),
            final(self).buf_capacity() == old(self).buf_capacity(),
            final(self).buf_init() == data@,
    ;
}

/// An immutable write source: a stable region of valid bytes.
pub trait IoBuf: Sized {
    /// The valid bytes the kernel may read.
    spec fn buf_bytes(&self) -> Seq<u8>;

    /// Number of valid bytes.
    fn bytes_init(&self) -> (n: usize)
        ensures
            n == self.buf_bytes().len(),
    ;

    /// The valid bytes as a slice.
    fn as_bytes(&self) -> (s: &[u8])
        ensures
            s@ == self.buf_bytes(),
    ;
}

/// A vectored read target: an array of descriptors, each with the per-region
/// contract of `IoBufMut`. A single submission writes into the first
/// descriptor, so only that one is exposed for filling.
pub trait IoVecBufMut: Sized {
    /// Number of descriptors.
    spec fn slot_count(&self) -> nat;

    /// Capacity of the first descriptor (zero when there is none).
    spec fn first_capacity(&self) -> nat;

    /// Initialized prefix of the first descriptor.
    spec fn first_init(&self) -> Seq<u8>;

    /// Well-formedness of the descriptor set.
    spec fn vec_wf(&self) -> bool;

    /// Number of descriptors.
    fn iovec_count(&self) -> (n: usize)
        requires
            self.vec_wf(),
        ensures
            n == self.slot_count(),
    ;

    /// Capacity of the first descriptor.
    fn first_total(&self) -> (n: usize)
        requires
            self.vec_wf(),
            self.slot_count() > 0,
        ensures
            n == self.first_capacity(),
    ;

    /// Write `data` at the start of the first descriptor and record it as
    /// that descriptor's initialized prefix.
    fn fill_first(&mut self, data: &[u8])
        requires
            old(self).vec_wf(),
            old(self).slot_count() > 0,
            data@.len() <= old(self).first_capacity(),
        ensures
            final(self).vec_wf(),
            final(self).slot_count() == old(self).slot_count(),
            final(self).first_capacity() == old(self).first_capacity(),
            final(self).first_init() == data@,
    ;
}

/// The canonical mutable owned buffer: a heap region of fixed capacity with
/// an initialized prefix of `init` bytes.
pub struct OwnedBuf {
    storage: Vec<u8>,
    init: usize,
}

impl OwnedBuf {
    /// Total capacity in bytes.
    pub closed spec fn capacity(&self) -> nat {
        self.storage@.len()
    }

    /// The bytes of the initialized prefix.
    pub closed spec fn init_bytes(&self) -> Seq<u8> {
        self.storage@.take(self.init as int)
    }

    /// The initialized prefix fits in the region.
    pub closed spec fn wf(&self) -> bool {
        self.init <= self.storage@.len()
    }

    /// A fresh buffer of capacity `cap` with an empty initialized prefix.
    pub fn with_capacity(cap: usize) -> (b: OwnedBuf)
        ensures
            b.wf(),
            b.capacity() == cap,
            b.init_bytes() == Seq::<u8>::empty(),
    {
        let storage: Vec<u8> = vec![0u8; cap];
        let b = OwnedBuf { storage, init: 0 };
        proof {
            assert(b.init_bytes() =~= Seq::<u8>::empty());
        }
        b
    }

    /// The initialized prefix, moved out as a plain vector.
    pub fn into_inner(self) -> (v: Vec<u8>)
        requires
            self.wf(),
        ensures
            v@ == self.init_bytes(),
    {
        let mut storage = self.storage;
        storage.truncate(self.init);
        proof {
            assert(storage@ =~= self.init_bytes());
        }
        storage
    }
}

impl IoBufMut for OwnedBuf {
    open spec fn buf_capacity(&self) -> nat {
        self.capacity()
    }

    open spec fn buf_init(&self) -> Seq<u8> {
        self.init_bytes()
    }

    open spec fn buf_wf(&self) -> bool {
        self.wf()
    }

    proof fn lemma_init_within_capacity(&self) {
    }

    fn bytes_total(&self) -> (n: usize) {
        self.storage.len()
    }

    fn bytes_init(&self) -> (n: usize) {
        self.init
    }

    fn fill_prefix(&mut self, data: &[u8]) {
        let n = data.len();
        let mut i: usize = 0;
        while i < n
            invariant
                i <= n,
                n == data@.len(),
                n <= self.storage@.len(),
                self.storage@.len() == old(self).storage@.len(),
                forall|j: int| 0 <= j < i ==> self.storage@[j] == data@[j],
            decreases n - i,
        {
            let byte = data[i];
            self.storage[i] = byte;
            i += 1;
        }
        self.init = n;
        proof {
            assert(self.init_bytes() =~= data@);
        }
    }
}

/// An immutable owned buffer: every byte it holds is valid.
pub struct OwnedSlice {
    data: Vec<u8>,
}

impl OwnedSlice {
    /// The valid bytes.
    pub closed spec fn bytes(&self) -> Seq<u8> {
        self.data@
    }

    /// Wrap a vector; all of it is valid.
    pub fn from_vec(data: Vec<u8>) -> (b: OwnedSlice)
        ensures
            b.bytes() == data@,
    {
        OwnedSlice { data }
    }
}

impl IoBuf for OwnedSlice {
    open spec fn buf_bytes(&self) -> Seq<u8> {
        self.bytes()
    }

    fn bytes_init(&self) -> (n: usize) {
        self.data.len()
    }

    fn as_bytes(&self) -> (s: &[u8]) {
        self.data.as_slice()
    }
}

/// The canonical vectored read target: a sequence of owned buffers.
pub struct VectoredBufMut {
    parts: Vec<OwnedBuf>,
}

impl VectoredBufMut {
    /// Well-formedness: every part is well formed.
    pub closed spec fn wf(&self) -> bool {
        forall|i: int| 0 <= i < self.parts@.len() ==> (#[trigger] self.parts@[i]).wf()
    }

    /// Number of descriptors.
    pub closed spec fn count(&self) -> nat {
        self.parts@.len()
    }

    /// Initialized prefix of the part at `i`.
    pub closed spec fn part_init(&self, i: int) -> Seq<u8> {
        self.parts@[i].init_bytes()
    }

    /// Capacity of the part at `i`.
    pub closed spec fn part_capacity(&self, i: int) -> nat {
        self.parts@[i].capacity()
    }

    /// An empty descriptor set.
    pub fn new() -> (v: VectoredBufMut)
        ensures
            v.wf(),
            v.count() == 0,
    {
        VectoredBufMut { parts: Vec::new() }
    }

    /// Append one owned buffer as the next descriptor.
    pub fn push(&mut self, b: OwnedBuf)
        requires
            old(self).wf(),
            b.wf(),
        ensures
            final(self).wf(),
            final(self).count() == old(self).count() + 1,
            forall|i: int|
                0 <= i < old(self).count() ==> final(self).part_init(i) == old(self).part_init(i),
            forall|i: int|
                0 <= i < old(self).count() ==> final(self).part_capacity(i) == old(
                    self,
                ).part_capacity(i),
            final(self).part_init(old(self).count() as int) == b.init_bytes(),
            final(self).part_capacity(old(self).count() as int) == b.capacity(),
    {
        self.parts.push(b);
    }

    /// Move the descriptors out as plain owned buffers.
    pub fn into_parts(self) -> (v: Vec<OwnedBuf>)
        ensures
            v@.len() == self.count(),
            forall|i: int| 0 <= i < v@.len() ==> (#[trigger] v@[i]).init_bytes() == self.part_init(i),
    {
        self.parts
    }
}

impl IoVecBufMut for VectoredBufMut {
    open spec fn slot_count(&self) -> nat {
        self.count()
    }

    open spec fn first_capacity(&self) -> nat {
        if self.count() > 0 {
            self.part_capacity(0)
        } else {
            0
        }
    }

    open spec fn first_init(&self) -> Seq<u8> {
        if self.count() > 0 {
            self.part_init(0)
        } else {
            Seq::<u8>::empty()
        }
    }

    open spec fn vec_wf(&self) -> bool {
        self.wf()
    }

    fn iovec_count(&self) -> (n: usize) {
        self.parts.len()
    }

    fn first_total(&self) -> (n: usize) {
        self.parts[0].bytes_total()
    }

    fn fill_first(&mut self, data: &[u8]) {
        let mut first = self.parts.remove(0);
        first.fill_prefix(data);
        self.parts.insert(0, first);
        proof {
            assert(self.wf());
        }
    }
}

} // verus!
