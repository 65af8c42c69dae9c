//! A linear CPU-visible Vulkan buffer seen as a `width` by `height` frame.
use crate::frame::SliceFrame;
use crate::shape::{check_len, BadLength};
use std::sync::Arc;
use vstd::prelude::*;
use vulkano::buffer::cpu_access::{ReadLock, ReadLockError, WriteLock, WriteLockError};
use vulkano::buffer::{CpuAccessibleBuffer, TypedBufferAccess};

verus! {

/// Relies on `TypedBufferAccess::len`: the number of elements in the buffer, which is its
/// size in bytes divided by the element's size (hence a sized, non-empty element type).
#[verifier::external_body]
fn element_count<T: Send + Sync + 'static>(b: &Arc<CpuAccessibleBuffer<[T]>>) -> usize
    requires
        vstd::layout::size_of::<T>() > 0,
{
    b.len()
}

/// Relies on `CpuAccessibleBuffer::read`: a shared lock over the whole buffer, or the
/// reason why it cannot be had now. Mapping the buffer as a slice divides by the element's
/// size, hence a non-empty element type.
#[verifier::external_body]
fn lock_read<T: 'static>(b: &Arc<CpuAccessibleBuffer<[T]>>) -> Result<ReadLock<'_, [T]>, ReadLockError> 
    requires
        vstd::layout::size_of::<T>() > 0,
{
    b.read()
}

/// Relies on `CpuAccessibleBuffer::write`: an exclusive lock over the whole buffer, or the
/// reason why it cannot be had now. Mapping the buffer as a slice divides by the element's
/// size, hence a non-empty element type.
#[verifier::external_body]
fn lock_write<T: 'static>(b: &Arc<CpuAccessibleBuffer<[T]>>) -> Result<WriteLock<'_, [T]>, WriteLockError> 
    requires
        vstd::layout::size_of::<T>() > 0,
{
    b.write()
}

/// Relies on `Deref` for `ReadLock`: the locked elements.
#[verifier::external_body]
fn read_lock_elements<'b, 'a, T>(l: &'b ReadLock<'a, [T]>) -> &'b [T] {
    &**l
}

/// Relies on `Deref` for `WriteLock`: the locked elements.
#[verifier::external_body]
fn write_lock_elements<'b, 'a, T>(l: &'b WriteLock<'a, [T]>) -> &'b [T] {
    &**l
}

/// Relies on `DerefMut` for `WriteLock`: the locked elements, to be changed in place.
#[verifier::external_body]
fn write_lock_elements_mut<'b, 'a, T>(l: &'b mut WriteLock<'a, [T]>) -> &'b mut [T]
    no_unwind
{
    &mut **l
}

/// Wraps a buffer, so that its elements can be read and written as the pixels of a frame.
#[verifier::reject_recursive_types(T)]
pub struct Buffer<T> {
    inner: Arc<CpuAccessibleBuffer<[T]>>,
    width: usize,
    height: usize,
}

impl<T> Buffer<T> {
    /// The width given at construction.
    pub closed spec fn spec_width(&self) -> usize {
        self.width
    }

    /// The height given at construction.
    pub closed spec fn spec_height(&self) -> usize {
        self.height
    }

    /// The wrapped buffer.
    pub closed spec fn spec_buffer(&self) -> Arc<CpuAccessibleBuffer<[T]>> {
        self.inner
    }

    #[verifier::type_invariant]
    spec fn inv(&self) -> bool {
        &&& self.width * self.height <= usize::MAX
        &&& vstd::layout::size_of::<T>() > 0
    }

    /// The underlying buffer, unchanged.
    pub fn buffer(&self) -> (r: &Arc<CpuAccessibleBuffer<[T]>>)
        ensures
            *r == self.spec_buffer(),
    {
        &self.inner
    }

    /// The width of the frame, in pixels.
    pub fn width(&self) -> (r: usize)
        ensures
            r == self.spec_width(),
    {
        self.width
    }

    /// The height of the frame, in pixels.
    pub fn height(&self) -> (r: usize)
        ensures
            r == self.spec_height(),
    {
        self.height
    }
}

impl<T> Clone for Buffer<T> {
    /// Another wrapper of the same buffer, with the same dimensions.
    fn clone(&self) -> (r: Self)
        ensures
            r.spec_width() == self.spec_width(),
            r.spec_height() == self.spec_height(),
            r.spec_buffer() == self.spec_buffer(),
    {
        proof {
            use_type_invariant(self);
        }
        Buffer { inner: self.inner.clone(), width: self.width, height: self.height }
    }
}

impl<T: Send + Sync + 'static> Buffer<T> {
    /// Wraps `inner` as a `width` by `height` frame. A buffer whose length is not
    /// `width * height` gives a `BadLength` that carries both lengths.
    pub fn new(inner: Arc<CpuAccessibleBuffer<[T]>>, width: usize, height: usize) -> (r: Result<
        Self,
        BadLength,
    >)
        requires
            width * height <= usize::MAX,
            vstd::layout::size_of::<T>() > 0,
        ensures
            r matches Ok(b) ==> b.spec_width() == width && b.spec_height() == height
                && b.spec_buffer() == inner,
            r matches Err(e) ==> e.expected_len == width * height && e.actual_len != width
                * height,
    {
        let actual_len = element_count(&inner);
        match check_len(width, height, actual_len) {
            Ok(()) => Ok(Buffer { inner, width, height }),
            Err(e) => Err(e),
        }
    }
}

impl<T: 'static> Buffer<T> {
    /// Tries to get a read-only frame from the buffer; fails while the buffer is locked
    /// for writing.
    pub fn read(&self) -> (r: Result<Reader<'_, T>, ReadLockError>)
        ensures
            r matches Ok(v) ==> v.spec_width() == self.spec_width() && v.spec_height()
                == self.spec_height(),
    {
        proof {
            use_type_invariant(self);
        }
        match lock_read(&self.inner) {
            Ok(inner) => Ok(Reader { inner, width: self.width, height: self.height }),
            Err(e) => Err(e),
        }
    }

    /// Tries to get a mutable frame from the buffer; fails while any other view of it is
    /// alive.
    pub fn write(&self) -> (r: Result<Writer<'_, T>, WriteLockError>)
        ensures
            r matches Ok(v) ==> v.spec_width() == self.spec_width() && v.spec_height()
                == self.spec_height(),
    {
        proof {
            use_type_invariant(self);
        }
        match lock_write(&self.inner) {
            Ok(inner) => Ok(Writer { inner, width: self.width, height: self.height }),
            Err(e) => Err(e),
        }
    }
}

/// A read-only frame, alive as long as its shared lock on the buffer.
#[verifier::reject_recursive_types(T)]
pub struct Reader<'a, T> {
    inner: ReadLock<'a, [T]>,
    width: usize,
    height: usize,
}

impl<'a, T> Reader<'a, T> {
    /// The width of the frame.
    pub closed spec fn spec_width(&self) -> usize {
        self.width
    }

    /// The height of the frame.
    pub closed spec fn spec_height(&self) -> usize {
        self.height
    }

    #[verifier::type_invariant]
    spec fn inv(&self) -> bool {
        self.width * self.height <= usize::MAX
    }

    /// The width of the frame, in pixels.
    pub fn width(&self) -> (r: usize)
        ensures
            r == self.spec_width(),
    {
        self.width
    }

    /// The height of the frame, in pixels.
    pub fn height(&self) -> (r: usize)
        ensures
            r == self.spec_height(),
    {
        self.height
    }

    /// The buffer's elements as one flat sequence.
    pub fn as_slice(&self) -> &[T] {
        read_lock_elements(&self.inner)
    }
}

impl<'a, T: Copy> Reader<'a, T> {
    /// The locked elements as a frame of this reader's dimensions, which a buffer of the
    /// length given at construction always makes.
    pub fn frame(&self) -> (r: Result<SliceFrame<'_, T>, BadLength>)
        ensures
            r matches Ok(f) ==> f.width == self.spec_width() && f.height == self.spec_height()
                && f.data@.len() == f.width * f.height,
            r matches Err(e) ==> e.expected_len == self.spec_width() * self.spec_height()
                && e.actual_len != e.expected_len,
    {
        proof {
            use_type_invariant(self);
        }
        SliceFrame::new(read_lock_elements(&self.inner), self.width, self.height)
    }
}

/// A mutable frame, alive as long as its exclusive lock on the buffer.
#[verifier::reject_recursive_types(T)]
pub struct Writer<'a, T> {
    inner: WriteLock<'a, [T]>,
    width: usize,
    height: usize,
}

impl<'a, T> Writer<'a, T> {
    /// The width of the frame.
    pub closed spec fn spec_width(&self) -> usize {
        self.width
    }

    /// The height of the frame.
    pub closed spec fn spec_height(&self) -> usize {
        self.height
    }

    #[verifier::type_invariant]
    spec fn inv(&self) -> bool {
        self.width * self.height <= usize::MAX
    }

    /// The width of the frame, in pixels.
    pub fn width(&self) -> (r: usize)
        ensures
            r == self.spec_width(),
    {
        self.width
    }

    /// The height of the frame, in pixels.
    pub fn height(&self) -> (r: usize)
        ensures
            r == self.spec_height(),
    {
        self.height
    }

    /// The buffer's elements as one flat sequence.
    pub fn as_slice(&self) -> &[T] {
        write_lock_elements(&self.inner)
    }

    /// The buffer's elements as one flat sequence, to be changed in place.
    pub fn as_mut_slice(&mut self) -> &mut [T] {
        proof {
            use_type_invariant(&*self);
        }
        write_lock_elements_mut(&mut self.inner)
    }
}

impl<'a, T: Copy> Writer<'a, T> {
    /// The locked elements as a frame of this writer's dimensions, which a buffer of the
    /// length given at construction always makes.
    pub fn frame(&self) -> (r: Result<SliceFrame<'_, T>, BadLength>)
        ensures
            r matches Ok(f) ==> f.width == self.spec_width() && f.height == self.spec_height()
                && f.data@.len() == f.width * f.height,
            r matches Err(e) ==> e.expected_len == self.spec_width() * self.spec_height()
                && e.actual_len != e.expected_len,
    {
        proof {
            use_type_invariant(self);
        }
        SliceFrame::new(write_lock_elements(&self.inner), self.width, self.height)
    }
}

} // verus!
