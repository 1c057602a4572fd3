//! Buffers of device memory, typed by their usage and by what they hold.

use core::marker::PhantomData;
use vstd::prelude::*;
use crate::raw::{
    BUFFER_USAGE_INDEX_BUFFER, BUFFER_USAGE_TRANSFER_SRC, BUFFER_USAGE_UNIFORM_BUFFER,
    BUFFER_USAGE_VERTEX_BUFFER,
};

verus! {

/// A way of using a buffer, known at compile time.
pub trait BufferUsageType {
    /// The usage flag of the buffer.
    spec fn spec_as_raw() -> u32;

    /// The usage flag to create the buffer with.
    fn as_raw() -> (flags: u32)
        ensures
            flags == Self::spec_as_raw(),
    ;
}

/// The buffer feeds vertices to a pipeline.
pub struct VertexBufferUsage;

/// The buffer holds the indices of an indexed draw.
pub struct IndexBufferUsage;

/// The buffer is read by shaders as a uniform block.
pub struct UniformBufferUsage;

/// The buffer is the source of a copy.
pub struct TransferSrcBufferUsage;

impl BufferUsageType for VertexBufferUsage {
    open spec fn spec_as_raw() -> u32 {
        BUFFER_USAGE_VERTEX_BUFFER
    }

    fn as_raw() -> (flags: u32) {
        BUFFER_USAGE_VERTEX_BUFFER
    }
}

impl BufferUsageType for IndexBufferUsage {
    open spec fn spec_as_raw() -> u32 {
        BUFFER_USAGE_INDEX_BUFFER
    }

    fn as_raw() -> (flags: u32) {
        BUFFER_USAGE_INDEX_BUFFER
    }
}

impl BufferUsageType for UniformBufferUsage {
    open spec fn spec_as_raw() -> u32 {
        BUFFER_USAGE_UNIFORM_BUFFER
    }

    fn as_raw() -> (flags: u32) {
        BUFFER_USAGE_UNIFORM_BUFFER
    }
}

impl BufferUsageType for TransferSrcBufferUsage {
    open spec fn spec_as_raw() -> u32 {
        BUFFER_USAGE_TRANSFER_SRC
    }

    fn as_raw() -> (flags: u32) {
        BUFFER_USAGE_TRANSFER_SRC
    }
}

/// A buffer on the device that holds a `T`: one item, or a slice of items.
pub struct Buffer<U: BufferUsageType, T: ?Sized> {
    /// Handle of the device buffer.
    pub buffer: u64,
    /// Number of items in the buffer.
    pub len: usize,
    /// Size of the buffer's contents in bytes.
    pub size: usize,
    /// Ties the buffer to its usage and to the type of its contents.
    pub marker: PhantomData<(U, T)>,
}

impl<U, T> Buffer<U, [T]> where U: BufferUsageType, T: Copy {
    /// Describes the device buffer `buffer` that was filled with `data`.
    pub fn make_array_buffer(buffer: u64, data: &[T]) -> (made: Self)
        requires
            data@.len() > 0,
            data@.len() * vstd::layout::size_of::<T>() <= usize::MAX,
        ensures
            made.buffer == buffer,
            made.len == data@.len(),
            made.size == data@.len() * vstd::layout::size_of::<T>(),
    {
        Self {
            buffer,
            len: data.len(),
            size: data.len() * core::mem::size_of::<T>(),
            marker: PhantomData,
        }
    }
}

impl<U, T> Buffer<U, T> where U: BufferUsageType, T: Copy {
    /// Describes the device buffer `buffer` that was filled with one `T`.
    pub fn make_item_buffer(buffer: u64) -> (made: Self)
        requires
            vstd::layout::size_of::<T>() > 0,
        ensures
            made.buffer == buffer,
            made.len == 1,
            made.size == vstd::layout::size_of::<T>(),
    {
        Self { buffer, len: 1, size: core::mem::size_of::<T>(), marker: PhantomData }
    }

    /// The same buffer without the type of its contents.
    pub fn as_untyped(&self) -> (untyped: UntypedBuffer<'_, U>)
        ensures
            untyped.buffer == self.buffer,
            untyped.size == self.size,
    {
        UntypedBuffer { buffer: self.buffer, size: self.size, marker: PhantomData }
    }
}

impl<U, T: ?Sized> Clone for Buffer<U, T> where U: BufferUsageType {
    /// Another description of the same device buffer.
    fn clone(&self) -> (copy: Self)
        ensures
            copy == *self,
    {
        Self { buffer: self.buffer, len: self.len, size: self.size, marker: PhantomData }
    }
}

/// A buffer of which only the handle and the size in bytes are known.
pub struct UntypedBuffer<'a, U: BufferUsageType> {
    /// Handle of the device buffer.
    pub buffer: u64,
    /// Size of the buffer's contents in bytes.
    pub size: usize,
    /// Ties the buffer to its usage and to the borrow it came from.
    pub marker: PhantomData<&'a U>,
}

} // verus!
