//! The geometry of a shared-memory buffer.
use crate::protocol::interfaces::wayland::wl_shm::Format;
use vstd::prelude::*;

verus! {

/// Where a buffer lies in its pool, and how its pixels are laid out.
#[derive(Debug, Clone, Copy)]
pub struct Buffer {
    offset: usize,
    width: u32,
    height: u32,
    stride: u32,
    format: Format,
}

impl Buffer {
    pub closed spec fn spec_offset(&self) -> usize {
        self.offset
    }

    pub closed spec fn spec_width(&self) -> u32 {
        self.width
    }

    pub closed spec fn spec_height(&self) -> u32 {
        self.height
    }

    pub closed spec fn spec_stride(&self) -> u32 {
        self.stride
    }

    pub closed spec fn spec_format(&self) -> Format {
        self.format
    }

    /// A buffer from the signed words of a `create_buffer` request, each taken
    /// as the unsigned value of the same bits (the offset widened to `usize`).
    pub fn new(offset: i32, width: i32, height: i32, stride: i32, format: Format) -> (b: Buffer)
        ensures
            b.spec_offset() == offset as usize,
            b.spec_width() == width as u32,
            b.spec_height() == height as u32,
            b.spec_stride() == stride as u32,
            b.spec_format() == format,
    {
        Buffer {
            offset: offset as usize,
            width: width as u32,
            height: height as u32,
            stride: stride as u32,
            format,
        }
    }

    pub fn offset(&self) -> (r: usize)
        ensures
            r == self.spec_offset(),
    {
        self.offset
    }

    pub fn width(&self) -> (r: u32)
        ensures
            r == self.spec_width(),
    {
        self.width
    }

    pub fn height(&self) -> (r: u32)
        ensures
            r == self.spec_height(),
    {
        self.height
    }

    pub fn stride(&self) -> (r: u32)
        ensures
            r == self.spec_stride(),
    {
        self.stride
    }

    pub fn format(&self) -> (r: Format)
        ensures
            r == self.spec_format(),
    {
        self.format
    }
}

} // verus!
