use vstd::prelude::*;

use crate::desc::BufferIndex;

verus! {

/// A byte range of a buffer: the buffer's id, where the range starts, and
/// its length.
#[derive(Clone, Copy, Debug, PartialEq, Eq, Hash, Structural)]
pub struct BufferSlice {
    pub buffer: u64,
    pub offset: usize,
    pub size: usize,
}

impl BufferSlice {
    /// The whole of buffer `buffer`, which holds `size` bytes.
    pub fn whole(buffer: u64, size: usize) -> (r: BufferSlice)
        ensures
            r == (BufferSlice { buffer, offset: 0, size }),
    {
        BufferSlice { buffer, offset: 0, size }
    }

    /// The buffer's id.
    pub fn buffer(&self) -> (r: u64)
        ensures
            r == self.buffer,
    {
        self.buffer
    }

    /// Where the range starts in the buffer.
    pub fn offset(&self) -> (r: usize)
        ensures
            r == self.offset,
    {
        self.offset
    }

    /// Length of the range.
    pub fn size(&self) -> (r: usize)
        ensures
            r == self.size,
    {
        self.size
    }

    /// The part `range` of this slice, clamped to it; offsets count from
    /// the slice's start.
    pub fn slice<R: BufferIndex>(self, range: R) -> (r: BufferSlice)
        requires
            self.offset + self.size <= usize::MAX,
        ensures
            r.buffer == self.buffer,
            self.offset <= r.offset,
            r.offset + r.size <= self.offset + self.size,
    {
        let rg = range.range(self.size);
        BufferSlice { buffer: self.buffer, offset: self.offset + rg.start, size: rg.end - rg.start }
    }

    /// Splits the slice at byte `at`, clamped to its size: the bytes before
    /// and the bytes from there on.
    pub fn split_at(&self, at: usize) -> (r: (BufferSlice, BufferSlice))
        requires
            self.offset + self.size <= usize::MAX,
        ensures
            r.0 == (BufferSlice {
                buffer: self.buffer,
                offset: self.offset,
                size: if at <= self.size { at } else { self.size },
            }),
            r.1 == (BufferSlice {
                buffer: self.buffer,
                offset: (self.offset + r.0.size) as usize,
                size: (self.size - r.0.size) as usize,
            }),
    {
        let at = if at <= self.size { at } else { self.size };
        let before = BufferSlice { buffer: self.buffer, offset: self.offset, size: at };
        let after = BufferSlice { buffer: self.buffer, offset: self.offset + at, size: self.size - at };
        (before, after)
    }
}

} // verus!
