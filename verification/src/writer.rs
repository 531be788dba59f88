//! The bounded writer: copies string fragments into a fixed byte region,
//! all-or-nothing per fragment, never past the end of the region.

use vstd::prelude::*;

verus! {

/// Returned when a fragment does not fit in the remaining capacity; the
/// region and the cursor are left untouched in that case.
#[derive(Clone, Copy, Debug, PartialEq, Eq, Structural)]
pub struct WriteError;

/// A write cursor over a fixed-size byte region.
///
/// Fragments are accepted only in whole: a fragment larger than the
/// remaining capacity is refused without any partial copy, so a multi-byte
/// encoded character is never split across the capacity boundary.
pub struct Wrapper {
    buf: Vec<u8>,
    offset: usize,
}

impl Wrapper {
    /// The bytes of the region the writer was given.
    pub closed spec fn region(&self) -> Seq<u8> {
        self.buf@
    }

    /// How many bytes of the region are committed.
    pub closed spec fn cursor(&self) -> int {
        self.offset as int
    }

    /// The cursor never lies past the end of the region.
    pub open spec fn wf(&self) -> bool {
        0 <= self.cursor() <= self.region().len()
    }

    /// Takes exclusive ownership of the byte region to fill; the cursor
    /// starts at the beginning.
    pub fn new(buf: Vec<u8>) -> (w: Wrapper)
        ensures
            w.wf(),
            w.region() == buf@,
            w.cursor() == 0,
    {
        Wrapper { buf, offset: 0 }
    }

    /// The current cursor: how many bytes were committed so far.
    pub fn offset(&self) -> (n: usize)
        ensures
            n == self.cursor(),
    {
        self.offset
    }

    /// Reads one byte of the region.
    pub fn byte_at(&self, i: usize) -> (b: u8)
        requires
            i < self.region().len(),
        ensures
            b == self.region()[i as int],
    {
        self.buf[i]
    }

    /// Copies `s` into the region at the cursor if it fits in whole,
    /// otherwise refuses and changes nothing. Bytes outside the copied
    /// range are never touched, and the region never grows or shrinks.
    pub fn write_fragment(&mut self, s: &[u8]) -> (r: Result<(), WriteError>)
        requires
            old(self).wf(),
        ensures
            final(self).wf(),
            if s@.len() <= old(self).region().len() - old(self).cursor() {
                r == Ok::<(), WriteError>(())
                    && final(self).cursor() == old(self).cursor() + s@.len()
                    && final(self).region() == old(self).region().take(old(self).cursor())
                        + s@
                        + old(self).region().skip(old(self).cursor() + s@.len())
            } else {
                r == Err::<(), WriteError>(WriteError)
                    && *final(self) == *old(self)
            },
    {
        let n = s.len();
        if self.buf.len() - self.offset < n {
            return Err(WriteError);
        }
        let mut i: usize = 0;
        while i < n
            invariant
                i <= n,
                n == s@.len(),
                self.offset == old(self).offset,
                self.offset + n <= self.buf.len(),
                self.buf.len() == old(self).buf.len(),
                forall|j: int| 0 <= j < self.offset ==> self.buf@[j] == old(self).region()[j],
                forall|j: int| 0 <= j < i ==> self.buf@[self.offset + j] == s@[j],
                forall|j: int|
                    self.offset + n <= j < self.buf.len() ==> self.buf@[j] == old(self).region()[j],
            decreases n - i,
        {
            self.buf.set(self.offset + i, s[i]);
            i += 1;
        }
        self.offset = self.offset + n;
        proof {
            assert(self.region() =~= old(self).region().take(old(self).cursor())
                + s@
                + old(self).region().skip(old(self).cursor() + s@.len()));
        }
        Ok(())
    }
}

} // verus!
