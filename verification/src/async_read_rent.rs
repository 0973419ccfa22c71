//! Read operations that rent the caller's buffer: the buffer goes in by
//! value and comes back by value next to the result. On error it comes back
//! unchanged; on success with `n` bytes its initialized prefix has length
//! `n`.

use vstd::prelude::*;
use crate::buf::{IoBufMut, IoVecBufMut};

verus! {

/// The numeric error an operation surfaces: the kernel's error for
/// completion drivers, the syscall's `errno` for readiness drivers.
#[derive(Clone, Copy, Debug, PartialEq, Eq, Structural)]
pub struct IoError {
    /// The positive error number.
    pub code: i32,
}

/// An operation's result paired with the buffer it rented.
pub type BufResult<T, B> = (Result<T, IoError>, B);

/// Read with ownership of the buffer.
///
/// Every implementation returns the rented buffer exactly once, with its
/// capacity intact: unchanged on error, and with an initialized prefix of
/// exactly `n` bytes on success with `n`. The two spec functions model the
/// source: what it has left to yield and whether reads on it succeed, so a
/// read's result is pinned down for every implementation, wrappers included.
pub trait AsyncReadRent: Sized {
    /// The bytes the source has left to yield, in order.
    spec fn pending_bytes(&self) -> Seq<u8>;

    /// Whether the source is in a state where reads succeed.
    spec fn source_wf(&self) -> bool;

    /// Read into `buf`, as `read(2)` does: the next
    /// `min(pending, capacity)` bytes move into the buffer's prefix.
    fn read<T: IoBufMut>(&mut self, buf: T) -> (r: BufResult<usize, T>)
        requires
            buf.buf_wf(),
        ensures
            r.1.buf_wf(),
            r.1.buf_capacity() == buf.buf_capacity(),
            match r.0 {
                Ok(n) => {
                    &&& (*old(self)).source_wf()
                    &&& (*final(self)).source_wf()
                    &&& n == vstd::math::min(
                        (*old(self)).pending_bytes().len() as int,
                        buf.buf_capacity() as int,
                    )
                    &&& r.1.buf_init() == (*old(self)).pending_bytes().take(n as int)
                    &&& (*final(self)).pending_bytes() == (*old(self)).pending_bytes().skip(n as int)
                },
                Err(_) => {
                    &&& !(*old(self)).source_wf()
                    &&& r.1.buf_init() == buf.buf_init()
                    &&& (*final(self)).pending_bytes() == (*old(self)).pending_bytes()
                },
            },
    ;

    /// Read into the descriptor set `buf`, as `readv(2)` does. An empty
    /// descriptor set reads zero bytes and returns at once; otherwise one
    /// read goes into the first descriptor.
    fn readv<T: IoVecBufMut>(&mut self, buf: T) -> (r: BufResult<usize, T>)
        requires
            buf.vec_wf(),
        ensures
            r.1.vec_wf(),
            r.1.slot_count() == buf.slot_count(),
            r.1.first_capacity() == buf.first_capacity(),
            match r.0 {
                Ok(n) => {
                    &&& buf.slot_count() == 0 ==> n == 0 && r.1.first_init() == buf.first_init()
                        && (*final(self)).pending_bytes() == (*old(self)).pending_bytes()
                        && (*final(self)).source_wf() == (*old(self)).source_wf()
                    &&& buf.slot_count() > 0 ==> {
                        &&& (*old(self)).source_wf()
                        &&& (*final(self)).source_wf()
                        &&& n == vstd::math::min(
                            (*old(self)).pending_bytes().len() as int,
                            buf.first_capacity() as int,
                        )
                        &&& r.1.first_init() == (*old(self)).pending_bytes().take(n as int)
                        &&& (*final(self)).pending_bytes() == (*old(self)).pending_bytes().skip(n as int)
                    }
                },
                Err(_) => {
                    &&& buf.slot_count() > 0
                    &&& !(*old(self)).source_wf()
                    &&& r.1.first_init() == buf.first_init()
                    &&& (*final(self)).pending_bytes() == (*old(self)).pending_bytes()
                },
            },
    ;
}

/// Read at a given position with ownership of the buffer, as `pread(2)`
/// does; the source's own cursor, if any, is not consulted or moved.
pub trait AsyncReadRentAt {
    /// Read into `buf` starting at byte `pos` of the source.
    fn read_at<T: IoBufMut>(&mut self, buf: T, pos: usize) -> (r: BufResult<usize, T>)
        requires
            buf.buf_wf(),
        ensures
            r.1.buf_wf(),
            r.1.buf_capacity() == buf.buf_capacity(),
            match r.0 {
                Ok(n) => n <= r.1.buf_capacity() && r.1.buf_init().len() == n,
                Err(_) => r.1.buf_init() == buf.buf_init(),
            },
    ;
}

impl<A: AsyncReadRent> AsyncReadRent for &mut A {
    open spec fn pending_bytes(&self) -> Seq<u8> {
        (**self).pending_bytes()
    }

    open spec fn source_wf(&self) -> bool {
        (**self).source_wf()
    }

    fn read<T: IoBufMut>(&mut self, buf: T) -> (r: BufResult<usize, T>) {
        (**self).read(buf)
    }

    fn readv<T: IoVecBufMut>(&mut self, buf: T) -> (r: BufResult<usize, T>) {
        (**self).readv(buf)
    }
}

/// A read source over a byte sequence: the bytes and a cursor. Stands for
/// what a byte slice provides; each read hands out the next bytes and
/// advances the cursor.
pub struct ByteSource {
    data: Vec<u8>,
    pos: usize,
}

impl ByteSource {
    /// The bytes of the source.
    pub closed spec fn bytes(&self) -> Seq<u8> {
        self.data@
    }

    /// The cursor: how many bytes have been read.
    pub closed spec fn cursor(&self) -> nat {
        self.pos as nat
    }

    /// The cursor never passes the end.
    pub closed spec fn wf(&self) -> bool {
        self.pos <= self.data@.len()
    }

    /// How many bytes are left to read.
    pub open spec fn remaining(&self) -> nat {
        (self.bytes().len() - self.cursor()) as nat
    }

    /// A source over `data` with the cursor at the start.
    pub fn new(data: Vec<u8>) -> (s: ByteSource)
        ensures
            s.wf(),
            s.bytes() == data@,
            s.cursor() == 0,
    {
        ByteSource { data, pos: 0 }
    }

    /// Read the next bytes into `buf`: as many as are left, capped by the
    /// buffer's capacity. Returns how many were read; the cursor advances by
    /// that amount, and the buffer's initialized prefix holds exactly those
    /// bytes.
    pub fn read_next<T: IoBufMut>(&mut self, buf: T) -> (r: BufResult<usize, T>)
        requires
            old(self).wf(),
            buf.buf_wf(),
        ensures
            final(self).wf(),
            final(self).bytes() == old(self).bytes(),
            r.1.buf_wf(),
            r.1.buf_capacity() == buf.buf_capacity(),
            ({
                let amt = vstd::math::min(old(self).remaining() as int, buf.buf_capacity() as int);
                &&& r.0 == Ok::<usize, IoError>(amt as usize)
                &&& final(self).cursor() == old(self).cursor() + amt
                &&& r.1.buf_init() == old(self).bytes().subrange(
                    old(self).cursor() as int,
                    old(self).cursor() + amt,
                )
            }),
    {
        let mut buf = buf;
        let left = self.data.len() - self.pos;
        let cap = buf.bytes_total();
        let amt: usize = if left <= cap {
            left
        } else {
            cap
        };
        let chunk = vstd::slice::slice_subrange(self.data.as_slice(), self.pos, self.pos + amt);
        buf.fill_prefix(chunk);
        self.pos = self.pos + amt;
        (Ok(amt), buf)
    }

    /// Read the bytes at absolute position `pos` into `buf` without moving
    /// the cursor. A position at or past the end reads zero bytes.
    pub fn read_at_pos<T: IoBufMut>(&mut self, buf: T, pos: usize) -> (r: BufResult<usize, T>)
        requires
            old(self).wf(),
            buf.buf_wf(),
        ensures
            *final(self) == *old(self),
            r.1.buf_wf(),
            r.1.buf_capacity() == buf.buf_capacity(),
            ({
                let start = vstd::math::min(pos as int, old(self).bytes().len() as int);
                let amt = vstd::math::min(old(self).bytes().len() - start, buf.buf_capacity() as int);
                &&& r.0 == Ok::<usize, IoError>(amt as usize)
                &&& r.1.buf_init() == old(self).bytes().subrange(start, start + amt)
            }),
    {
        let mut buf = buf;
        let len = self.data.len();
        let start: usize = if pos <= len {
            pos
        } else {
            len
        };
        let left = len - start;
        let cap = buf.bytes_total();
        let amt: usize = if left <= cap {
            left
        } else {
            cap
        };
        let chunk = vstd::slice::slice_subrange(self.data.as_slice(), start, start + amt);
        buf.fill_prefix(chunk);
        (Ok(amt), buf)
    }

    /// Vectored read: an empty descriptor set reads zero bytes at once;
    /// otherwise one read goes into the first descriptor, as one submission
    /// would.
    pub fn readv_next<T: IoVecBufMut>(&mut self, buf: T) -> (r: BufResult<usize, T>)
        requires
            old(self).wf(),
            buf.vec_wf(),
        ensures
            final(self).wf(),
            final(self).bytes() == old(self).bytes(),
            r.1.vec_wf(),
            r.1.slot_count() == buf.slot_count(),
            r.1.first_capacity() == buf.first_capacity(),
            buf.slot_count() == 0 ==> {
                &&& r.0 == Ok::<usize, IoError>(0)
                &&& *final(self) == *old(self)
                &&& r.1.first_init() == buf.first_init()
            },
            buf.slot_count() > 0 ==> ({
                let amt = vstd::math::min(old(self).remaining() as int, buf.first_capacity() as int);
                &&& r.0 == Ok::<usize, IoError>(amt as usize)
                &&& final(self).cursor() == old(self).cursor() + amt
                &&& r.1.first_init() == old(self).bytes().subrange(
                    old(self).cursor() as int,
                    old(self).cursor() + amt,
                )
            }),
    {
        let mut buf = buf;
        if buf.iovec_count() == 0 {
            return (Ok(0), buf);
        }
        let left = self.data.len() - self.pos;
        let cap = buf.first_total();
        let amt: usize = if left <= cap {
            left
        } else {
            cap
        };
        let chunk = vstd::slice::slice_subrange(self.data.as_slice(), self.pos, self.pos + amt);
        buf.fill_first(chunk);
        self.pos = self.pos + amt;
        (Ok(amt), buf)
    }
}

impl AsyncReadRent for ByteSource {
    open spec fn pending_bytes(&self) -> Seq<u8> {
        self.bytes().skip(self.cursor() as int)
    }

    open spec fn source_wf(&self) -> bool {
        self.wf()
    }

    fn read<T: IoBufMut>(&mut self, buf: T) -> (r: BufResult<usize, T>) {
        if self.pos > self.data.len() {
            // Unreachable for a source built by `new`; rebuilt sources keep
            // the cursor in range as well.
            return (Err(IoError { code: 22 }), buf);
        }
        let r = self.read_next(buf);
        proof {
            let pend0 = old(self).bytes().skip(old(self).cursor() as int);
            let amt = vstd::math::min(old(self).remaining() as int, r.1.buf_capacity() as int);
            assert(r.1.buf_init() =~= pend0.take(amt));
            assert(self.bytes().skip(self.cursor() as int) =~= pend0.skip(amt));
        }
        r
    }

    fn readv<T: IoVecBufMut>(&mut self, buf: T) -> (r: BufResult<usize, T>) {
        if buf.iovec_count() == 0 {
            return (Ok(0), buf);
        }
        if self.pos > self.data.len() {
            return (Err(IoError { code: 22 }), buf);
        }
        let r = self.readv_next(buf);
        proof {
            let pend0 = old(self).bytes().skip(old(self).cursor() as int);
            let amt = vstd::math::min(old(self).remaining() as int, r.1.first_capacity() as int);
            assert(r.1.first_init() =~= pend0.take(amt));
            assert(self.bytes().skip(self.cursor() as int) =~= pend0.skip(amt));
        }
        r
    }
}

impl AsyncReadRentAt for ByteSource {
    fn read_at<T: IoBufMut>(&mut self, buf: T, pos: usize) -> (r: BufResult<usize, T>) {
        if self.pos > self.data.len() {
            return (Err(IoError { code: 22 }), buf);
        }
        self.read_at_pos(buf, pos)
    }
}

} // verus!
