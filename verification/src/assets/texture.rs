//! CPU-side image data: pixel types, pixel formats and image buffers.
use std::marker::PhantomData;

use vstd::layout::{align_of, size_of};
use vstd::prelude::*;

verus! {

/// A plain value that a pixel is made of (a channel value).
pub trait Primitive: Copy {
}

impl<T: Copy> Primitive for T {
}

/// `bytemuck::cast_slice` into bytes, copied into a new vector: the memory of the
/// elements read as bytes, `size_of::<T>()` bytes per element. Bytes are aligned
/// to one and every length in bytes is a whole number of bytes, so the cast never
/// fails. Which bytes an element is made of is not stated.
#[verifier::external_body]
fn bytes_of<T: bytemuck::Pod>(data: &[T]) -> (bytes: Vec<u8>)
    ensures
        bytes@.len() == data@.len() * size_of::<T>(),
{
    bytemuck::cast_slice::<T, u8>(data).to_vec()
}

/// A pixel made of one or more sub-pixels of the same primitive type.
pub trait Pixel: Copy {
    type SubPixel: Primitive;
}

/// A single-channel pixel.
#[derive(Copy, Clone)]
pub struct LumaPixel<T: Primitive>(pub T);

/// A three-channel pixel.
#[derive(Copy, Clone)]
pub struct RgbPixel<T: Primitive>(pub [T; 3]);

/// A four-channel pixel.
#[derive(Copy, Clone)]
pub struct RgbaPixel<T: Primitive>(pub [T; 4]);

impl<T: Primitive> Pixel for LumaPixel<T> {
    type SubPixel = T;
}

impl<T: Primitive> Pixel for RgbPixel<T> {
    type SubPixel = T;
}

impl<T: Primitive> Pixel for RgbaPixel<T> {
    type SubPixel = T;
}

/// Single-channel pixel format with channel type `T`.
#[derive(Debug)]
pub struct Grayscale<T> {
    _marker: PhantomData<T>,
}

/// Three-channel pixel format with channel type `T`.
#[derive(Debug)]
pub struct Rgb<T> {
    _marker: PhantomData<T>,
}

/// Four-channel linear pixel format with channel type `T`.
#[derive(Debug)]
pub struct Rgba<T> {
    _marker: PhantomData<T>,
}

/// Four-channel sRGB pixel format with channel type `T`.
#[derive(Debug)]
pub struct SRgba<T> {
    _marker: PhantomData<T>,
}

/// Image data stored as a flat list of sub-pixels.
pub struct ImageBuffer<P: Pixel> {
    data: Vec<P::SubPixel>,
}

impl<P: Pixel> ImageBuffer<P> {
    /// The sub-pixels, in storage order.
    pub closed spec fn view(&self) -> Seq<P::SubPixel> {
        self.data@
    }

    pub fn from_raw(data: Vec<P::SubPixel>) -> (buffer: Self)
        ensures
            buffer@ == data@,
    {
        ImageBuffer { data }
    }

    pub fn into_raw(self) -> (data: Vec<P::SubPixel>)
        ensures
            data@ == self@,
    {
        self.data
    }

    /// The sub-pixels as raw bytes, in storage order, copied into a new vector.
    /// Only sub-pixel types aligned to one byte are accepted: those are the ones
    /// whose buffer can be taken over as a byte vector.
    pub fn into_bytes(self) -> (bytes: Vec<u8>) where P::SubPixel: bytemuck::Pod
        requires
            align_of::<P::SubPixel>() == 1,
        ensures
            bytes@.len() == self@.len() * size_of::<P::SubPixel>(),
    {
        bytes_of(self.data.as_slice())
    }

    pub fn as_raw_slice(&self) -> (data: &[P::SubPixel])
        ensures
            data@ == self@,
    {
        self.data.as_slice()
    }

    pub fn as_mut_raw_slice(&mut self) -> (data: &mut [P::SubPixel])
        ensures
            data@ == old(self)@,
            final(self)@ == final(data)@,
    {
        self.data.as_mut_slice()
    }
}

} // verus!
