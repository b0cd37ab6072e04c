//! Fixed-capacity GPU buffers and the regions of them that get written.
//!
//! A [`Buffer`] describes a buffer that lives on the GPU: which one it is,
//! how many elements it was created with and how large one element is. It
//! never grows. Slicing and writing are checked against that capacity here,
//! and come out as element and byte ranges for the graphics queue.

use vstd::prelude::*;
use std::ops::Range;

verus! {

/// The buffers of a chart.
#[derive(Clone, Copy, Debug, PartialEq, Eq, Structural)]
pub enum BufferId {
    /// The vertices of border, crosshair, grid lines and data line strip.
    LineVertices,
    /// The uniform blocks of the line pipelines.
    LineUniforms,
    /// The two quads behind the crosshair readouts.
    HoverVertices,
    /// The indices of one quad.
    HoverIndices,
    /// The uniform blocks of the mesh pipeline.
    MeshUniforms,
    /// The per-instance offsets of the two readout quads.
    MeshInstances,
    /// The unit segment that every line instance stretches.
    Segment,
}

/// One end of a range of indices.
#[derive(Debug)]
pub enum Bound<T> {
    Included(T),
    Excluded(T),
    Unbounded,
}

/// Why a range or a write was refused.
#[derive(Clone, Copy, Debug, PartialEq, Eq, Structural)]
pub enum BufferError {
    /// The range excludes its start bound.
    ExcludedStart,
    /// The element after an included end bound is not representable.
    EndOverflow,
    /// The range ends before it starts.
    Reversed,
    /// The range reaches beyond the data it selects from.
    OutOfData,
    /// The range reaches beyond the capacity of the buffer.
    OutOfCapacity,
}

/// Calls `num_traits::Zero::zero` for `usize`.
///
/// Taken on trust, not proved: the call returns the additive identity, 0.
#[verifier::external_body]
fn zero_usize() -> (r: usize)
    ensures
        r == 0,
{
    num_traits::Zero::zero()
}

/// Calls `num_traits::One::one` for `usize`.
///
/// Taken on trust, not proved: the call returns the multiplicative
/// identity, 1.
#[verifier::external_body]
fn one_usize() -> (r: usize)
    ensures
        r == 1,
{
    num_traits::One::one()
}

/// Calls `num_traits::CheckedAdd::checked_add` on two `usize` values.
///
/// Taken on trust, not proved: the call returns the sum, or `None` when the
/// sum is not representable in `usize`.
#[verifier::external_body]
fn checked_add_usize(a: usize, b: usize) -> (r: Option<usize>)
    ensures
        r == (if a + b <= usize::MAX {
            Some((a + b) as usize)
        } else {
            None::<usize>
        }),
{
    num_traits::CheckedAdd::checked_add(&a, &b)
}

/// The half-open range that a pair of bounds selects out of `max_bound`
/// elements, or the reason why it selects none.
pub open spec fn resolved_range(start: Bound<usize>, end: Bound<usize>, max_bound: usize) -> Result<
    (int, int),
    BufferError,
> {
    let first: int = match start {
        Bound::Included(b) => b as int,
        Bound::Excluded(_) => 0,
        Bound::Unbounded => 0,
    };
    let last: int = match end {
        Bound::Included(b) => b + 1,
        Bound::Excluded(b) => b as int,
        Bound::Unbounded => max_bound as int,
    };
    if start is Excluded {
        Err(BufferError::ExcludedStart)
    } else if last > usize::MAX {
        Err(BufferError::EndOverflow)
    } else {
        Ok((first, last))
    }
}

/// Turns a pair of bounds into a half-open range.
///
/// An unbounded start is `0`, an unbounded end is `max_bound`, an included
/// end is followed by the element after it. A range cannot exclude its
/// start.
pub fn range_from_range_bounds(start: Bound<usize>, end: Bound<usize>, max_bound: usize) -> (r:
    Result<Range<usize>, BufferError>)
    ensures
        (match resolved_range(start, end, max_bound) {
            Ok((first, last)) => r is Ok && r->Ok_0.start == first && r->Ok_0.end == last,
            Err(e) => r == Err::<Range<usize>, BufferError>(e),
        }),
{
    let first: usize = match start {
        Bound::Included(b) => b,
        Bound::Excluded(_) => {
            return Err(BufferError::ExcludedStart);
        },
        Bound::Unbounded => zero_usize(),
    };
    let last: usize = match end {
        Bound::Included(b) => match checked_add_usize(b, one_usize()) {
            Some(e) => e,
            None => {
                return Err(BufferError::EndOverflow);
            },
        },
        Bound::Excluded(b) => b,
        Bound::Unbounded => max_bound,
    };
    Ok(first..last)
}

/// A write into a buffer: `count` elements, taken from the caller's data
/// starting at index `source`, go to the elements of `buffer` starting at
/// `offset`.
#[derive(Clone, Copy, Debug, PartialEq, Eq, Structural)]
pub struct BufferWrite {
    pub buffer: BufferId,
    /// Index of the first element written.
    pub offset: u32,
    /// Number of elements written.
    pub count: u32,
    /// Index of the first element taken from the data.
    pub source: usize,
    /// Where the write starts in the buffer, in bytes.
    pub byte_offset: u64,
    /// How many bytes are written.
    pub byte_len: u64,
}

impl BufferWrite {
    /// Whether the write stays within the first `capacity` elements.
    pub open spec fn within(self, capacity: int) -> bool {
        self.offset + self.count <= capacity
    }
}

/// A GPU buffer of fixed capacity.
#[derive(Clone, Copy, Debug, PartialEq, Eq, Structural)]
pub struct Buffer {
    id: BufferId,
    len: u32,
    stride: u32,
}

/// A range of the elements of a buffer.
#[derive(Clone, Copy, Debug, PartialEq, Eq, Structural)]
pub struct BufferSlice {
    /// The buffer that is sliced.
    pub buf: BufferId,
    /// Size of one element in bytes.
    pub stride: u32,
    /// Index of the first element.
    pub start: u32,
    /// Index after the last element.
    pub end: u32,
}

/// A range of the bytes of a buffer.
#[derive(Clone, Copy, Debug, PartialEq, Eq, Structural)]
pub struct RawSlice {
    pub buf: BufferId,
    pub start: u64,
    pub end: u64,
}

impl Buffer {
    /// Which buffer this is.
    pub closed spec fn ident(self) -> BufferId {
        self.id
    }

    /// The number of elements the buffer was created with.
    pub closed spec fn capacity(self) -> int {
        self.len as int
    }

    /// The size of one element in bytes.
    pub closed spec fn element_size(self) -> int {
        self.stride as int
    }

    /// Describes a buffer created from `len` elements of `stride` bytes
    /// each. Its capacity is `len` from then on. `None` when the length does
    /// not fit the 32-bit element count of the graphics API.
    pub fn new(id: BufferId, len: usize, stride: u32) -> (r: Option<Buffer>)
        ensures
            len <= u32::MAX ==> r is Some && r->Some_0.ident() == id && r->Some_0.capacity() == len
                && r->Some_0.element_size() == stride,
            len > u32::MAX ==> r is None,
    {
        if len > u32::MAX as usize {
            None
        } else {
            Some(Buffer { id, len: len as u32, stride })
        }
    }

    /// Which buffer this is.
    pub fn id(&self) -> (id: BufferId)
        ensures
            id == self.ident(),
    {
        self.id
    }

    /// The capacity in elements.
    pub fn len(&self) -> (n: u32)
        ensures
            n == self.capacity(),
    {
        self.len
    }

    /// The size of one element in bytes.
    pub fn stride(&self) -> (n: u32)
        ensures
            n == self.element_size(),
    {
        self.stride
    }

    /// The elements from `start` up to `end`. An unbounded end is the
    /// capacity.
    pub fn slice(&self, start: Bound<u32>, end: Bound<u32>) -> (r: Result<BufferSlice, BufferError>)
        ensures
            r == self.slice_spec(start, end),
            r is Ok ==> r->Ok_0.is_within(*self),
    {
        let first: u32 = match start {
            Bound::Included(b) => b,
            Bound::Excluded(_) => {
                return Err(BufferError::ExcludedStart);
            },
            Bound::Unbounded => 0,
        };
        let last: u32 = match end {
            Bound::Included(b) => {
                if b == u32::MAX {
                    return Err(BufferError::EndOverflow);
                }
                b + 1
            },
            Bound::Excluded(b) => b,
            Bound::Unbounded => self.len,
        };
        if first > last {
            Err(BufferError::Reversed)
        } else if last > self.len {
            Err(BufferError::OutOfCapacity)
        } else {
            Ok(BufferSlice { buf: self.id, stride: self.stride, start: first, end: last })
        }
    }

    /// What [`Buffer::slice`] returns.
    pub open spec fn slice_spec(self, start: Bound<u32>, end: Bound<u32>) -> Result<
        BufferSlice,
        BufferError,
    > {
        let first: int = match start {
            Bound::Included(b) => b as int,
            Bound::Excluded(_) => 0,
            Bound::Unbounded => 0,
        };
        let last: int = match end {
            Bound::Included(b) => b + 1,
            Bound::Excluded(b) => b as int,
            Bound::Unbounded => self.capacity(),
        };
        if start is Excluded {
            Err(BufferError::ExcludedStart)
        } else if last > u32::MAX {
            Err(BufferError::EndOverflow)
        } else if first > last {
            Err(BufferError::Reversed)
        } else if last > self.capacity() {
            Err(BufferError::OutOfCapacity)
        } else {
            Ok(
                BufferSlice {
                    buf: self.ident(),
                    stride: self.element_size() as u32,
                    start: first as u32,
                    end: last as u32,
                },
            )
        }
    }

    /// The write of `count` elements from the start of the data to the
    /// elements from `offset` on.
    pub open spec fn write_spec(self, offset: usize, count: usize) -> Result<
        BufferWrite,
        BufferError,
    > {
        if offset + count > self.capacity() {
            Err(BufferError::OutOfCapacity)
        } else {
            Ok(
                BufferWrite {
                    buffer: self.ident(),
                    offset: offset as u32,
                    count: count as u32,
                    source: 0,
                    byte_offset: (offset * self.element_size()) as u64,
                    byte_len: (count * self.element_size()) as u64,
                },
            )
        }
    }

    /// Writes `count` elements, all of the caller's data, to the elements
    /// from `offset` on. Refused when they do not fit the capacity.
    pub fn write(&self, offset: usize, count: usize) -> (r: Result<BufferWrite, BufferError>)
        ensures
            r == self.write_spec(offset, count),
            r is Ok ==> r->Ok_0.within(self.capacity()),
    {
        if offset > self.len as usize || count > self.len as usize - offset {
            return Err(BufferError::OutOfCapacity);
        }
        assert(offset * self.stride <= 0xffff_ffff * 0xffff_ffff && count * self.stride
            <= 0xffff_ffff * 0xffff_ffff) by (nonlinear_arith)
            requires
                0 <= offset <= 0xffff_ffff,
                0 <= count <= 0xffff_ffff,
                0 <= self.stride <= 0xffff_ffff,
        ;
        Ok(
            BufferWrite {
                buffer: self.id,
                offset: offset as u32,
                count: count as u32,
                source: 0,
                byte_offset: offset as u64 * self.stride as u64,
                byte_len: count as u64 * self.stride as u64,
            },
        )
    }

    /// The write of the elements that the bounds select out of `data_len`
    /// elements of data, each to the element of the same index.
    pub open spec fn write_sliced_spec(
        self,
        start: Bound<usize>,
        end: Bound<usize>,
        data_len: usize,
    ) -> Result<BufferWrite, BufferError> {
        match resolved_range(start, end, data_len) {
            Err(e) => Err(e),
            Ok((first, last)) => if first > last {
                Err(BufferError::Reversed)
            } else if last > data_len {
                Err(BufferError::OutOfData)
            } else if last > self.capacity() {
                Err(BufferError::OutOfCapacity)
            } else {
                Ok(
                    BufferWrite {
                        buffer: self.ident(),
                        offset: first as u32,
                        count: (last - first) as u32,
                        source: first as usize,
                        byte_offset: (first * self.element_size()) as u64,
                        byte_len: ((last - first) * self.element_size()) as u64,
                    },
                )
            },
        }
    }

    /// Writes the part of the caller's data that the bounds select to the
    /// same positions of the buffer. An unbounded end is `data_len`. Refused
    /// when the range is malformed, reaches beyond the data or beyond the
    /// capacity.
    pub fn write_sliced(&self, start: Bound<usize>, end: Bound<usize>, data_len: usize) -> (r:
        Result<BufferWrite, BufferError>)
        ensures
            r == self.write_sliced_spec(start, end, data_len),
            r is Ok ==> r->Ok_0.within(self.capacity()),
    {
        let range = match range_from_range_bounds(start, end, data_len) {
            Ok(range) => range,
            Err(e) => {
                return Err(e);
            },
        };
        if range.start > range.end {
            return Err(BufferError::Reversed);
        }
        if range.end > data_len {
            return Err(BufferError::OutOfData);
        }
        if range.end > self.len as usize {
            return Err(BufferError::OutOfCapacity);
        }
        let count: usize = range.end - range.start;
        assert(range.start * self.stride <= 0xffff_ffff * 0xffff_ffff && count * self.stride
            <= 0xffff_ffff * 0xffff_ffff) by (nonlinear_arith)
            requires
                0 <= range.start <= 0xffff_ffff,
                0 <= count <= 0xffff_ffff,
                0 <= self.stride <= 0xffff_ffff,
        ;
        Ok(
            BufferWrite {
                buffer: self.id,
                offset: range.start as u32,
                count: count as u32,
                source: range.start,
                byte_offset: range.start as u64 * self.stride as u64,
                byte_len: count as u64 * self.stride as u64,
            },
        )
    }
}

impl BufferSlice {
    /// Whether the slice is a range of the elements of `buffer`.
    pub open spec fn is_within(self, buffer: Buffer) -> bool {
        self.buf == buffer.ident() && self.stride == buffer.element_size() && self.start
            <= self.end <= buffer.capacity()
    }

    /// The range in bytes.
    pub fn raw_addres_range(&self) -> (r: Range<u64>)
        ensures
            r.start == self.start * self.stride,
            r.end == self.end * self.stride,
    {
        assert(self.start * self.stride <= 0xffff_ffff * 0xffff_ffff && self.end * self.stride
            <= 0xffff_ffff * 0xffff_ffff) by (nonlinear_arith)
            requires
                0 <= self.start <= 0xffff_ffff,
                0 <= self.end <= 0xffff_ffff,
                0 <= self.stride <= 0xffff_ffff,
        ;
        let size: u64 = self.stride as u64;
        (self.start as u64 * size)..(self.end as u64 * size)
    }

    /// The range in elements.
    pub fn range(&self) -> (r: Range<u32>)
        ensures
            r.start == self.start,
            r.end == self.end,
    {
        self.start..self.end
    }

    /// The buffer that is sliced.
    pub fn buf(&self) -> (id: BufferId)
        ensures
            id == self.buf,
    {
        self.buf
    }

    /// The slice as a range of bytes of its buffer.
    pub fn to_raw_slice(&self) -> (r: RawSlice)
        ensures
            r.buf == self.buf,
            r.start == self.start * self.stride,
            r.end == self.end * self.stride,
    {
        let bytes = self.raw_addres_range();
        RawSlice { buf: self.buf, start: bytes.start, end: bytes.end }
    }

    /// The number of elements; zero for a slice that ends before it starts.
    pub fn len(&self) -> (n: u32)
        ensures
            n == (if self.end >= self.start {
                self.end - self.start
            } else {
                0
            }),
    {
        if self.end >= self.start {
            self.end - self.start
        } else {
            0
        }
    }
}

} // verus!
