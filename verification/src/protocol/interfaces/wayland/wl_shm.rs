//! A singleton global object that provides support for shared
//! memory.
//!
//! The `wl_shm` interface, version 2: decoding of its
//! requests and encoding of its events.
use crate::codec::{
    Arg, ArgKind, ArgValue, all_fit_wire, carries, encode_message, kind_of, kinds_of,
    lemma_kinds_of, read_args, spec_read_args, take_fd, take_int, take_object, views,
};
use crate::error::DecodeError;
use crate::error::Error as RequestError;
use crate::wire::{fds_valid, Cursor, cursor_of, message_opcode, opcode_of, pending_fds, same_header};
use vstd::prelude::*;
use waynest::wire::Message;

verus! {

/// The name of the interface.
pub const INTERFACE: &'static str = "wl_shm";

/// The version of the interface that is implemented.
pub const VERSION: u32 = 2;

/// These errors can be emitted in response to wl_shm requests.
#[derive(Debug, PartialEq, Eq, PartialOrd, Ord, Hash, Clone, Copy)]
pub enum Error {
    /// Buffer format is not known
    InvalidFormat,
    /// Invalid size or stride during pool or buffer creation
    InvalidStride,
    /// Mmapping the file descriptor failed
    InvalidFd,
}

impl Error {
    /// The word that stands for this value on the wire.
    pub open spec fn wire_value(self) -> u32 {
        match self {
            Error::InvalidFormat => 0,
            Error::InvalidStride => 1,
            Error::InvalidFd => 2,
        }
    }

    /// The value a word stands for, if any.
    pub open spec fn from_wire(v: u32) -> Result<Self, DecodeError> {
        match v {
            0 => Ok(Error::InvalidFormat),
            1 => Ok(Error::InvalidStride),
            2 => Ok(Error::InvalidFd),
            _ => Err(DecodeError::MalformedPayload),
        }
    }

    /// The word that stands for this value on the wire.
    pub fn to_wire(self) -> (r: u32)
        ensures
            r == self.wire_value(),
    {
        match self {
            Error::InvalidFormat => 0,
            Error::InvalidStride => 1,
            Error::InvalidFd => 2,
        }
    }

    /// A value read back from its word is that value, and a word that reads
    /// as a value is that value's word.
    pub proof fn lemma_wire_roundtrip(self, v: u32)
        ensures
            Self::from_wire(self.wire_value()) == Ok::<Self, DecodeError>(self),
            Self::from_wire(v) matches Ok(e) ==> e.wire_value() == v,
    {
    }

    /// The words the protocol gives the values of this enumeration.
    pub proof fn lemma_protocol_values()
        ensures
            Error::InvalidFormat.wire_value() == 0,
            Error::InvalidStride.wire_value() == 1,
            Error::InvalidFd.wire_value() == 2,
            Self::from_wire(0) == Ok::<Self, DecodeError>(Error::InvalidFormat),
            Self::from_wire(1) == Ok::<Self, DecodeError>(Error::InvalidStride),
            Self::from_wire(2) == Ok::<Self, DecodeError>(Error::InvalidFd),
    {
    }
}

impl TryFrom<u32> for Error {
    type Error = DecodeError;

    fn try_from(v: u32) -> (r: Result<Self, DecodeError>) {
        match v {
            0 => Ok(Error::InvalidFormat),
            1 => Ok(Error::InvalidStride),
            2 => Ok(Error::InvalidFd),
            _ => Err(DecodeError::MalformedPayload),
        }
    }
}

impl vstd::std_specs::convert::TryFromSpecImpl<u32> for Error {
    open spec fn obeys_try_from_spec() -> bool {
        true
    }

    open spec fn try_from_spec(v: u32) -> Result<Self, DecodeError> {
        Self::from_wire(v)
    }
}

/// This describes the memory layout of an individual pixel.
///
/// All renderers should support argb8888 and xrgb8888 but any other
/// formats are optional and may not be supported by the particular
/// renderer in use.
///
/// The drm format codes match the macros defined in drm_fourcc.h, except
/// argb8888 and xrgb8888. The formats actually supported by the compositor
/// will be reported by the format event.
///
/// For all wl_shm formats and unless specified in another protocol
/// extension, pre-multiplied alpha is used for pixel values.
#[derive(Debug, PartialEq, Eq, PartialOrd, Ord, Hash, Clone, Copy)]
pub enum Format {
    /// 32-bit ARGB format, [31:0] A:R:G:B 8:8:8:8 little endian
    Argb8888,
    /// 32-bit RGB format, [31:0] x:R:G:B 8:8:8:8 little endian
    Xrgb8888,
    /// 8-bit color index format, [7:0] C
    C8,
    /// 8-bit RGB format, [7:0] R:G:B 3:3:2
    Rgb332,
    /// 8-bit BGR format, [7:0] B:G:R 2:3:3
    Bgr233,
    /// 16-bit xRGB format, [15:0] x:R:G:B 4:4:4:4 little endian
    Xrgb4444,
    /// 16-bit xBGR format, [15:0] x:B:G:R 4:4:4:4 little endian
    Xbgr4444,
    /// 16-bit RGBx format, [15:0] R:G:B:x 4:4:4:4 little endian
    Rgbx4444,
    /// 16-bit BGRx format, [15:0] B:G:R:x 4:4:4:4 little endian
    Bgrx4444,
    /// 16-bit ARGB format, [15:0] A:R:G:B 4:4:4:4 little endian
    Argb4444,
    /// 16-bit ABGR format, [15:0] A:B:G:R 4:4:4:4 little endian
    Abgr4444,
    /// 16-bit RBGA format, [15:0] R:G:B:A 4:4:4:4 little endian
    Rgba4444,
    /// 16-bit BGRA format, [15:0] B:G:R:A 4:4:4:4 little endian
    Bgra4444,
    /// 16-bit xRGB format, [15:0] x:R:G:B 1:5:5:5 little endian
    Xrgb1555,
    /// 16-bit xBGR 1555 format, [15:0] x:B:G:R 1:5:5:5 little endian
    Xbgr1555,
    /// 16-bit RGBx 5551 format, [15:0] R:G:B:x 5:5:5:1 little endian
    Rgbx5551,
    /// 16-bit BGRx 5551 format, [15:0] B:G:R:x 5:5:5:1 little endian
    Bgrx5551,
    /// 16-bit ARGB 1555 format, [15:0] A:R:G:B 1:5:5:5 little endian
    Argb1555,
    /// 16-bit ABGR 1555 format, [15:0] A:B:G:R 1:5:5:5 little endian
    Abgr1555,
    /// 16-bit RGBA 5551 format, [15:0] R:G:B:A 5:5:5:1 little endian
    Rgba5551,
    /// 16-bit BGRA 5551 format, [15:0] B:G:R:A 5:5:5:1 little endian
    Bgra5551,
    /// 16-bit RGB 565 format, [15:0] R:G:B 5:6:5 little endian
    Rgb565,
    /// 16-bit BGR 565 format, [15:0] B:G:R 5:6:5 little endian
    Bgr565,
    /// 24-bit RGB format, [23:0] R:G:B little endian
    Rgb888,
    /// 24-bit BGR format, [23:0] B:G:R little endian
    Bgr888,
    /// 32-bit xBGR format, [31:0] x:B:G:R 8:8:8:8 little endian
    Xbgr8888,
    /// 32-bit RGBx format, [31:0] R:G:B:x 8:8:8:8 little endian
    Rgbx8888,
    /// 32-bit BGRx format, [31:0] B:G:R:x 8:8:8:8 little endian
    Bgrx8888,
    /// 32-bit ABGR format, [31:0] A:B:G:R 8:8:8:8 little endian
    Abgr8888,
    /// 32-bit RGBA format, [31:0] R:G:B:A 8:8:8:8 little endian
    Rgba8888,
    /// 32-bit BGRA format, [31:0] B:G:R:A 8:8:8:8 little endian
    Bgra8888,
    /// 32-bit xRGB format, [31:0] x:R:G:B 2:10:10:10 little endian
    Xrgb2101010,
    /// 32-bit xBGR format, [31:0] x:B:G:R 2:10:10:10 little endian
    Xbgr2101010,
    /// 32-bit RGBx format, [31:0] R:G:B:x 10:10:10:2 little endian
    Rgbx1010102,
    /// 32-bit BGRx format, [31:0] B:G:R:x 10:10:10:2 little endian
    Bgrx1010102,
    /// 32-bit ARGB format, [31:0] A:R:G:B 2:10:10:10 little endian
    Argb2101010,
    /// 32-bit ABGR format, [31:0] A:B:G:R 2:10:10:10 little endian
    Abgr2101010,
    /// 32-bit RGBA format, [31:0] R:G:B:A 10:10:10:2 little endian
    Rgba1010102,
    /// 32-bit BGRA format, [31:0] B:G:R:A 10:10:10:2 little endian
    Bgra1010102,
    /// Packed YCbCr format, [31:0] Cr0:Y1:Cb0:Y0 8:8:8:8 little endian
    Yuyv,
    /// Packed YCbCr format, [31:0] Cb0:Y1:Cr0:Y0 8:8:8:8 little endian
    Yvyu,
    /// Packed YCbCr format, [31:0] Y1:Cr0:Y0:Cb0 8:8:8:8 little endian
    Uyvy,
    /// Packed YCbCr format, [31:0] Y1:Cb0:Y0:Cr0 8:8:8:8 little endian
    Vyuy,
    /// Packed AYCbCr format, [31:0] A:Y:Cb:Cr 8:8:8:8 little endian
    Ayuv,
    /// 2 plane YCbCr Cr:Cb format, 2x2 subsampled Cr:Cb plane
    Nv12,
    /// 2 plane YCbCr Cb:Cr format, 2x2 subsampled Cb:Cr plane
    Nv21,
    /// 2 plane YCbCr Cr:Cb format, 2x1 subsampled Cr:Cb plane
    Nv16,
    /// 2 plane YCbCr Cb:Cr format, 2x1 subsampled Cb:Cr plane
    Nv61,
    /// 3 plane YCbCr format, 4x4 subsampled Cb (1) and Cr (2) planes
    Yuv410,
    /// 3 plane YCbCr format, 4x4 subsampled Cr (1) and Cb (2) planes
    Yvu410,
    /// 3 plane YCbCr format, 4x1 subsampled Cb (1) and Cr (2) planes
    Yuv411,
    /// 3 plane YCbCr format, 4x1 subsampled Cr (1) and Cb (2) planes
    Yvu411,
    /// 3 plane YCbCr format, 2x2 subsampled Cb (1) and Cr (2) planes
    Yuv420,
    /// 3 plane YCbCr format, 2x2 subsampled Cr (1) and Cb (2) planes
    Yvu420,
    /// 3 plane YCbCr format, 2x1 subsampled Cb (1) and Cr (2) planes
    Yuv422,
    /// 3 plane YCbCr format, 2x1 subsampled Cr (1) and Cb (2) planes
    Yvu422,
    /// 3 plane YCbCr format, non-subsampled Cb (1) and Cr (2) planes
    Yuv444,
    /// 3 plane YCbCr format, non-subsampled Cr (1) and Cb (2) planes
    Yvu444,
    /// [7:0] R
    R8,
    /// [15:0] R little endian
    R16,
    /// [15:0] R:G 8:8 little endian
    Rg88,
    /// [15:0] G:R 8:8 little endian
    Gr88,
    /// [31:0] R:G 16:16 little endian
    Rg1616,
    /// [31:0] G:R 16:16 little endian
    Gr1616,
    /// [63:0] x:R:G:B 16:16:16:16 little endian
    Xrgb16161616f,
    /// [63:0] x:B:G:R 16:16:16:16 little endian
    Xbgr16161616f,
    /// [63:0] A:R:G:B 16:16:16:16 little endian
    Argb16161616f,
    /// [63:0] A:B:G:R 16:16:16:16 little endian
    Abgr16161616f,
    /// [31:0] X:Y:Cb:Cr 8:8:8:8 little endian
    Xyuv8888,
    /// [23:0] Cr:Cb:Y 8:8:8 little endian
    Vuy888,
    /// Y followed by U then V, 10:10:10. Non-linear modifier only
    Vuy101010,
    /// [63:0] Cr0:0:Y1:0:Cb0:0:Y0:0 10:6:10:6:10:6:10:6 little endian per 2 Y pixels
    Y210,
    /// [63:0] Cr0:0:Y1:0:Cb0:0:Y0:0 12:4:12:4:12:4:12:4 little endian per 2 Y pixels
    Y212,
    /// [63:0] Cr0:Y1:Cb0:Y0 16:16:16:16 little endian per 2 Y pixels
    Y216,
    /// [31:0] A:Cr:Y:Cb 2:10:10:10 little endian
    Y410,
    /// [63:0] A:0:Cr:0:Y:0:Cb:0 12:4:12:4:12:4:12:4 little endian
    Y412,
    /// [63:0] A:Cr:Y:Cb 16:16:16:16 little endian
    Y416,
    /// [31:0] X:Cr:Y:Cb 2:10:10:10 little endian
    Xvyu2101010,
    /// [63:0] X:0:Cr:0:Y:0:Cb:0 12:4:12:4:12:4:12:4 little endian
    Xvyu1216161616,
    /// [63:0] X:Cr:Y:Cb 16:16:16:16 little endian
    Xvyu16161616,
    /// [63:0]   A3:A2:Y3:0:Cr0:0:Y2:0:A1:A0:Y1:0:Cb0:0:Y0:0  1:1:8:2:8:2:8:2:1:1:8:2:8:2:8:2 little endian
    Y0l0,
    /// [63:0]   X3:X2:Y3:0:Cr0:0:Y2:0:X1:X0:Y1:0:Cb0:0:Y0:0  1:1:8:2:8:2:8:2:1:1:8:2:8:2:8:2 little endian
    X0l0,
    /// [63:0]   A3:A2:Y3:Cr0:Y2:A1:A0:Y1:Cb0:Y0  1:1:10:10:10:1:1:10:10:10 little endian
    Y0l2,
    /// [63:0]   X3:X2:Y3:Cr0:Y2:X1:X0:Y1:Cb0:Y0  1:1:10:10:10:1:1:10:10:10 little endian
    X0l2,
    Yuv4208bit,
    Yuv42010bit,
    Xrgb8888A8,
    Xbgr8888A8,
    Rgbx8888A8,
    Bgrx8888A8,
    Rgb888A8,
    Bgr888A8,
    Rgb565A8,
    Bgr565A8,
    /// Non-subsampled Cr:Cb plane
    Nv24,
    /// Non-subsampled Cb:Cr plane
    Nv42,
    /// 2x1 subsampled Cr:Cb plane, 10 bit per channel
    P210,
    /// 2x2 subsampled Cr:Cb plane 10 bits per channel
    P010,
    /// 2x2 subsampled Cr:Cb plane 12 bits per channel
    P012,
    /// 2x2 subsampled Cr:Cb plane 16 bits per channel
    P016,
    /// [63:0] A:x:B:x:G:x:R:x 10:6:10:6:10:6:10:6 little endian
    Axbxgxrx106106106106,
    /// 2x2 subsampled Cr:Cb plane
    Nv15,
    Q410,
    Q401,
    /// [63:0] x:R:G:B 16:16:16:16 little endian
    Xrgb16161616,
    /// [63:0] x:B:G:R 16:16:16:16 little endian
    Xbgr16161616,
    /// [63:0] A:R:G:B 16:16:16:16 little endian
    Argb16161616,
    /// [63:0] A:B:G:R 16:16:16:16 little endian
    Abgr16161616,
    /// [7:0] C0:C1:C2:C3:C4:C5:C6:C7 1:1:1:1:1:1:1:1 eight pixels/byte
    C1,
    /// [7:0] C0:C1:C2:C3 2:2:2:2 four pixels/byte
    C2,
    /// [7:0] C0:C1 4:4 two pixels/byte
    C4,
    /// [7:0] D0:D1:D2:D3:D4:D5:D6:D7 1:1:1:1:1:1:1:1 eight pixels/byte
    D1,
    /// [7:0] D0:D1:D2:D3 2:2:2:2 four pixels/byte
    D2,
    /// [7:0] D0:D1 4:4 two pixels/byte
    D4,
    /// [7:0] D
    D8,
    /// [7:0] R0:R1:R2:R3:R4:R5:R6:R7 1:1:1:1:1:1:1:1 eight pixels/byte
    R1,
    /// [7:0] R0:R1:R2:R3 2:2:2:2 four pixels/byte
    R2,
    /// [7:0] R0:R1 4:4 two pixels/byte
    R4,
    /// [15:0] x:R 6:10 little endian
    R10,
    /// [15:0] x:R 4:12 little endian
    R12,
    /// [31:0] A:Cr:Cb:Y 8:8:8:8 little endian
    Avuy8888,
    /// [31:0] X:Cr:Cb:Y 8:8:8:8 little endian
    Xvuy8888,
    /// 2x2 subsampled Cr:Cb plane 10 bits per channel packed
    P030,
}

impl Format {
    /// The word that stands for this value on the wire.
    pub open spec fn wire_value(self) -> u32 {
        match self {
            Format::Argb8888 => 0,
            Format::Xrgb8888 => 1,
            Format::C8 => 0x20203843,
            Format::Rgb332 => 0x38424752,
            Format::Bgr233 => 0x38524742,
            Format::Xrgb4444 => 0x32315258,
            Format::Xbgr4444 => 0x32314258,
            Format::Rgbx4444 => 0x32315852,
            Format::Bgrx4444 => 0x32315842,
            Format::Argb4444 => 0x32315241,
            Format::Abgr4444 => 0x32314241,
            Format::Rgba4444 => 0x32314152,
            Format::Bgra4444 => 0x32314142,
            Format::Xrgb1555 => 0x35315258,
            Format::Xbgr1555 => 0x35314258,
            Format::Rgbx5551 => 0x35315852,
            Format::Bgrx5551 => 0x35315842,
            Format::Argb1555 => 0x35315241,
            Format::Abgr1555 => 0x35314241,
            Format::Rgba5551 => 0x35314152,
            Format::Bgra5551 => 0x35314142,
            Format::Rgb565 => 0x36314752,
            Format::Bgr565 => 0x36314742,
            Format::Rgb888 => 0x34324752,
            Format::Bgr888 => 0x34324742,
            Format::Xbgr8888 => 0x34324258,
            Format::Rgbx8888 => 0x34325852,
            Format::Bgrx8888 => 0x34325842,
            Format::Abgr8888 => 0x34324241,
            Format::Rgba8888 => 0x34324152,
            Format::Bgra8888 => 0x34324142,
            Format::Xrgb2101010 => 0x30335258,
            Format::Xbgr2101010 => 0x30334258,
            Format::Rgbx1010102 => 0x30335852,
            Format::Bgrx1010102 => 0x30335842,
            Format::Argb2101010 => 0x30335241,
            Format::Abgr2101010 => 0x30334241,
            Format::Rgba1010102 => 0x30334152,
            Format::Bgra1010102 => 0x30334142,
            Format::Yuyv => 0x56595559,
            Format::Yvyu => 0x55595659,
            Format::Uyvy => 0x59565955,
            Format::Vyuy => 0x59555956,
            Format::Ayuv => 0x56555941,
            Format::Nv12 => 0x3231564e,
            Format::Nv21 => 0x3132564e,
            Format::Nv16 => 0x3631564e,
            Format::Nv61 => 0x3136564e,
            Format::Yuv410 => 0x39565559,
            Format::Yvu410 => 0x39555659,
            Format::Yuv411 => 0x31315559,
            Format::Yvu411 => 0x31315659,
            Format::Yuv420 => 0x32315559,
            Format::Yvu420 => 0x32315659,
            Format::Yuv422 => 0x36315559,
            Format::Yvu422 => 0x36315659,
            Format::Yuv444 => 0x34325559,
            Format::Yvu444 => 0x34325659,
            Format::R8 => 0x20203852,
            Format::R16 => 0x20363152,
            Format::Rg88 => 0x38384752,
            Format::Gr88 => 0x38385247,
            Format::Rg1616 => 0x32334752,
            Format::Gr1616 => 0x32335247,
            Format::Xrgb16161616f => 0x48345258,
            Format::Xbgr16161616f => 0x48344258,
            Format::Argb16161616f => 0x48345241,
            Format::Abgr16161616f => 0x48344241,
            Format::Xyuv8888 => 0x56555958,
            Format::Vuy888 => 0x34325556,
            Format::Vuy101010 => 0x30335556,
            Format::Y210 => 0x30313259,
            Format::Y212 => 0x32313259,
            Format::Y216 => 0x36313259,
            Format::Y410 => 0x30313459,
            Format::Y412 => 0x32313459,
            Format::Y416 => 0x36313459,
            Format::Xvyu2101010 => 0x30335658,
            Format::Xvyu1216161616 => 0x36335658,
            Format::Xvyu16161616 => 0x38345658,
            Format::Y0l0 => 0x304c3059,
            Format::X0l0 => 0x304c3058,
            Format::Y0l2 => 0x324c3059,
            Format::X0l2 => 0x324c3058,
            Format::Yuv4208bit => 0x38305559,
            Format::Yuv42010bit => 0x30315559,
            Format::Xrgb8888A8 => 0x38415258,
            Format::Xbgr8888A8 => 0x38414258,
            Format::Rgbx8888A8 => 0x38415852,
            Format::Bgrx8888A8 => 0x38415842,
            Format::Rgb888A8 => 0x38413852,
            Format::Bgr888A8 => 0x38413842,
            Format::Rgb565A8 => 0x38413552,
            Format::Bgr565A8 => 0x38413542,
            Format::Nv24 => 0x3432564e,
            Format::Nv42 => 0x3234564e,
            Format::P210 => 0x30313250,
            Format::P010 => 0x30313050,
            Format::P012 => 0x32313050,
            Format::P016 => 0x36313050,
            Format::Axbxgxrx106106106106 => 0x30314241,
            Format::Nv15 => 0x3531564e,
            Format::Q410 => 0x30313451,
            Format::Q401 => 0x31303451,
            Format::Xrgb16161616 => 0x38345258,
            Format::Xbgr16161616 => 0x38344258,
            Format::Argb16161616 => 0x38345241,
            Format::Abgr16161616 => 0x38344241,
            Format::C1 => 0x20203143,
            Format::C2 => 0x20203243,
            Format::C4 => 0x20203443,
            Format::D1 => 0x20203144,
            Format::D2 => 0x20203244,
            Format::D4 => 0x20203444,
            Format::D8 => 0x20203844,
            Format::R1 => 0x20203152,
            Format::R2 => 0x20203252,
            Format::R4 => 0x20203452,
            Format::R10 => 0x20303152,
            Format::R12 => 0x20323152,
            Format::Avuy8888 => 0x59555641,
            Format::Xvuy8888 => 0x59555658,
            Format::P030 => 0x30333050,
        }
    }

    /// The value a word stands for, if any.
    pub open spec fn from_wire(v: u32) -> Result<Self, DecodeError> {
        match v {
            0 => Ok(Format::Argb8888),
            1 => Ok(Format::Xrgb8888),
            0x20203843 => Ok(Format::C8),
            0x38424752 => Ok(Format::Rgb332),
            0x38524742 => Ok(Format::Bgr233),
            0x32315258 => Ok(Format::Xrgb4444),
            0x32314258 => Ok(Format::Xbgr4444),
            0x32315852 => Ok(Format::Rgbx4444),
            0x32315842 => Ok(Format::Bgrx4444),
            0x32315241 => Ok(Format::Argb4444),
            0x32314241 => Ok(Format::Abgr4444),
            0x32314152 => Ok(Format::Rgba4444),
            0x32314142 => Ok(Format::Bgra4444),
            0x35315258 => Ok(Format::Xrgb1555),
            0x35314258 => Ok(Format::Xbgr1555),
            0x35315852 => Ok(Format::Rgbx5551),
            0x35315842 => Ok(Format::Bgrx5551),
            0x35315241 => Ok(Format::Argb1555),
            0x35314241 => Ok(Format::Abgr1555),
            0x35314152 => Ok(Format::Rgba5551),
            0x35314142 => Ok(Format::Bgra5551),
            0x36314752 => Ok(Format::Rgb565),
            0x36314742 => Ok(Format::Bgr565),
            0x34324752 => Ok(Format::Rgb888),
            0x34324742 => Ok(Format::Bgr888),
            0x34324258 => Ok(Format::Xbgr8888),
            0x34325852 => Ok(Format::Rgbx8888),
            0x34325842 => Ok(Format::Bgrx8888),
            0x34324241 => Ok(Format::Abgr8888),
            0x34324152 => Ok(Format::Rgba8888),
            0x34324142 => Ok(Format::Bgra8888),
            0x30335258 => Ok(Format::Xrgb2101010),
            0x30334258 => Ok(Format::Xbgr2101010),
            0x30335852 => Ok(Format::Rgbx1010102),
            0x30335842 => Ok(Format::Bgrx1010102),
            0x30335241 => Ok(Format::Argb2101010),
            0x30334241 => Ok(Format::Abgr2101010),
            0x30334152 => Ok(Format::Rgba1010102),
            0x30334142 => Ok(Format::Bgra1010102),
            0x56595559 => Ok(Format::Yuyv),
            0x55595659 => Ok(Format::Yvyu),
            0x59565955 => Ok(Format::Uyvy),
            0x59555956 => Ok(Format::Vyuy),
            0x56555941 => Ok(Format::Ayuv),
            0x3231564e => Ok(Format::Nv12),
            0x3132564e => Ok(Format::Nv21),
            0x3631564e => Ok(Format::Nv16),
            0x3136564e => Ok(Format::Nv61),
            0x39565559 => Ok(Format::Yuv410),
            0x39555659 => Ok(Format::Yvu410),
            0x31315559 => Ok(Format::Yuv411),
            0x31315659 => Ok(Format::Yvu411),
            0x32315559 => Ok(Format::Yuv420),
            0x32315659 => Ok(Format::Yvu420),
            0x36315559 => Ok(Format::Yuv422),
            0x36315659 => Ok(Format::Yvu422),
            0x34325559 => Ok(Format::Yuv444),
            0x34325659 => Ok(Format::Yvu444),
            0x20203852 => Ok(Format::R8),
            0x20363152 => Ok(Format::R16),
            0x38384752 => Ok(Format::Rg88),
            0x38385247 => Ok(Format::Gr88),
            0x32334752 => Ok(Format::Rg1616),
            0x32335247 => Ok(Format::Gr1616),
            0x48345258 => Ok(Format::Xrgb16161616f),
            0x48344258 => Ok(Format::Xbgr16161616f),
            0x48345241 => Ok(Format::Argb16161616f),
            0x48344241 => Ok(Format::Abgr16161616f),
            0x56555958 => Ok(Format::Xyuv8888),
            0x34325556 => Ok(Format::Vuy888),
            0x30335556 => Ok(Format::Vuy101010),
            0x30313259 => Ok(Format::Y210),
            0x32313259 => Ok(Format::Y212),
            0x36313259 => Ok(Format::Y216),
            0x30313459 => Ok(Format::Y410),
            0x32313459 => Ok(Format::Y412),
            0x36313459 => Ok(Format::Y416),
            0x30335658 => Ok(Format::Xvyu2101010),
            0x36335658 => Ok(Format::Xvyu1216161616),
            0x38345658 => Ok(Format::Xvyu16161616),
            0x304c3059 => Ok(Format::Y0l0),
            0x304c3058 => Ok(Format::X0l0),
            0x324c3059 => Ok(Format::Y0l2),
            0x324c3058 => Ok(Format::X0l2),
            0x38305559 => Ok(Format::Yuv4208bit),
            0x30315559 => Ok(Format::Yuv42010bit),
            0x38415258 => Ok(Format::Xrgb8888A8),
            0x38414258 => Ok(Format::Xbgr8888A8),
            0x38415852 => Ok(Format::Rgbx8888A8),
            0x38415842 => Ok(Format::Bgrx8888A8),
            0x38413852 => Ok(Format::Rgb888A8),
            0x38413842 => Ok(Format::Bgr888A8),
            0x38413552 => Ok(Format::Rgb565A8),
            0x38413542 => Ok(Format::Bgr565A8),
            0x3432564e => Ok(Format::Nv24),
            0x3234564e => Ok(Format::Nv42),
            0x30313250 => Ok(Format::P210),
            0x30313050 => Ok(Format::P010),
            0x32313050 => Ok(Format::P012),
            0x36313050 => Ok(Format::P016),
            0x30314241 => Ok(Format::Axbxgxrx106106106106),
            0x3531564e => Ok(Format::Nv15),
            0x30313451 => Ok(Format::Q410),
            0x31303451 => Ok(Format::Q401),
            0x38345258 => Ok(Format::Xrgb16161616),
            0x38344258 => Ok(Format::Xbgr16161616),
            0x38345241 => Ok(Format::Argb16161616),
            0x38344241 => Ok(Format::Abgr16161616),
            0x20203143 => Ok(Format::C1),
            0x20203243 => Ok(Format::C2),
            0x20203443 => Ok(Format::C4),
            0x20203144 => Ok(Format::D1),
            0x20203244 => Ok(Format::D2),
            0x20203444 => Ok(Format::D4),
            0x20203844 => Ok(Format::D8),
            0x20203152 => Ok(Format::R1),
            0x20203252 => Ok(Format::R2),
            0x20203452 => Ok(Format::R4),
            0x20303152 => Ok(Format::R10),
            0x20323152 => Ok(Format::R12),
            0x59555641 => Ok(Format::Avuy8888),
            0x59555658 => Ok(Format::Xvuy8888),
            0x30333050 => Ok(Format::P030),
            _ => Err(DecodeError::MalformedPayload),
        }
    }

    /// The word that stands for this value on the wire.
    pub fn to_wire(self) -> (r: u32)
        ensures
            r == self.wire_value(),
    {
        match self {
            Format::Argb8888 => 0,
            Format::Xrgb8888 => 1,
            Format::C8 => 0x20203843,
            Format::Rgb332 => 0x38424752,
            Format::Bgr233 => 0x38524742,
            Format::Xrgb4444 => 0x32315258,
            Format::Xbgr4444 => 0x32314258,
            Format::Rgbx4444 => 0x32315852,
            Format::Bgrx4444 => 0x32315842,
            Format::Argb4444 => 0x32315241,
            Format::Abgr4444 => 0x32314241,
            Format::Rgba4444 => 0x32314152,
            Format::Bgra4444 => 0x32314142,
            Format::Xrgb1555 => 0x35315258,
            Format::Xbgr1555 => 0x35314258,
            Format::Rgbx5551 => 0x35315852,
            Format::Bgrx5551 => 0x35315842,
            Format::Argb1555 => 0x35315241,
            Format::Abgr1555 => 0x35314241,
            Format::Rgba5551 => 0x35314152,
            Format::Bgra5551 => 0x35314142,
            Format::Rgb565 => 0x36314752,
            Format::Bgr565 => 0x36314742,
            Format::Rgb888 => 0x34324752,
            Format::Bgr888 => 0x34324742,
            Format::Xbgr8888 => 0x34324258,
            Format::Rgbx8888 => 0x34325852,
            Format::Bgrx8888 => 0x34325842,
            Format::Abgr8888 => 0x34324241,
            Format::Rgba8888 => 0x34324152,
            Format::Bgra8888 => 0x34324142,
            Format::Xrgb2101010 => 0x30335258,
            Format::Xbgr2101010 => 0x30334258,
            Format::Rgbx1010102 => 0x30335852,
            Format::Bgrx1010102 => 0x30335842,
            Format::Argb2101010 => 0x30335241,
            Format::Abgr2101010 => 0x30334241,
            Format::Rgba1010102 => 0x30334152,
            Format::Bgra1010102 => 0x30334142,
            Format::Yuyv => 0x56595559,
            Format::Yvyu => 0x55595659,
            Format::Uyvy => 0x59565955,
            Format::Vyuy => 0x59555956,
            Format::Ayuv => 0x56555941,
            Format::Nv12 => 0x3231564e,
            Format::Nv21 => 0x3132564e,
            Format::Nv16 => 0x3631564e,
            Format::Nv61 => 0x3136564e,
            Format::Yuv410 => 0x39565559,
            Format::Yvu410 => 0x39555659,
            Format::Yuv411 => 0x31315559,
            Format::Yvu411 => 0x31315659,
            Format::Yuv420 => 0x32315559,
            Format::Yvu420 => 0x32315659,
            Format::Yuv422 => 0x36315559,
            Format::Yvu422 => 0x36315659,
            Format::Yuv444 => 0x34325559,
            Format::Yvu444 => 0x34325659,
            Format::R8 => 0x20203852,
            Format::R16 => 0x20363152,
            Format::Rg88 => 0x38384752,
            Format::Gr88 => 0x38385247,
            Format::Rg1616 => 0x32334752,
            Format::Gr1616 => 0x32335247,
            Format::Xrgb16161616f => 0x48345258,
            Format::Xbgr16161616f => 0x48344258,
            Format::Argb16161616f => 0x48345241,
            Format::Abgr16161616f => 0x48344241,
            Format::Xyuv8888 => 0x56555958,
            Format::Vuy888 => 0x34325556,
            Format::Vuy101010 => 0x30335556,
            Format::Y210 => 0x30313259,
            Format::Y212 => 0x32313259,
            Format::Y216 => 0x36313259,
            Format::Y410 => 0x30313459,
            Format::Y412 => 0x32313459,
            Format::Y416 => 0x36313459,
            Format::Xvyu2101010 => 0x30335658,
            Format::Xvyu1216161616 => 0x36335658,
            Format::Xvyu16161616 => 0x38345658,
            Format::Y0l0 => 0x304c3059,
            Format::X0l0 => 0x304c3058,
            Format::Y0l2 => 0x324c3059,
            Format::X0l2 => 0x324c3058,
            Format::Yuv4208bit => 0x38305559,
            Format::Yuv42010bit => 0x30315559,
            Format::Xrgb8888A8 => 0x38415258,
            Format::Xbgr8888A8 => 0x38414258,
            Format::Rgbx8888A8 => 0x38415852,
            Format::Bgrx8888A8 => 0x38415842,
            Format::Rgb888A8 => 0x38413852,
            Format::Bgr888A8 => 0x38413842,
            Format::Rgb565A8 => 0x38413552,
            Format::Bgr565A8 => 0x38413542,
            Format::Nv24 => 0x3432564e,
            Format::Nv42 => 0x3234564e,
            Format::P210 => 0x30313250,
            Format::P010 => 0x30313050,
            Format::P012 => 0x32313050,
            Format::P016 => 0x36313050,
            Format::Axbxgxrx106106106106 => 0x30314241,
            Format::Nv15 => 0x3531564e,
            Format::Q410 => 0x30313451,
            Format::Q401 => 0x31303451,
            Format::Xrgb16161616 => 0x38345258,
            Format::Xbgr16161616 => 0x38344258,
            Format::Argb16161616 => 0x38345241,
            Format::Abgr16161616 => 0x38344241,
            Format::C1 => 0x20203143,
            Format::C2 => 0x20203243,
            Format::C4 => 0x20203443,
            Format::D1 => 0x20203144,
            Format::D2 => 0x20203244,
            Format::D4 => 0x20203444,
            Format::D8 => 0x20203844,
            Format::R1 => 0x20203152,
            Format::R2 => 0x20203252,
            Format::R4 => 0x20203452,
            Format::R10 => 0x20303152,
            Format::R12 => 0x20323152,
            Format::Avuy8888 => 0x59555641,
            Format::Xvuy8888 => 0x59555658,
            Format::P030 => 0x30333050,
        }
    }

    /// A value read back from its word is that value, and a word that reads
    /// as a value is that value's word.
    pub proof fn lemma_wire_roundtrip(self, v: u32)
        ensures
            Self::from_wire(self.wire_value()) == Ok::<Self, DecodeError>(self),
            Self::from_wire(v) matches Ok(e) ==> e.wire_value() == v,
    {
    }

    /// The words the protocol gives the values of this enumeration.
    pub proof fn lemma_protocol_values()
        ensures
            Format::Argb8888.wire_value() == 0,
            Format::Xrgb8888.wire_value() == 1,
            Format::C8.wire_value() == 0x20203843,
            Format::Rgb332.wire_value() == 0x38424752,
            Format::Bgr233.wire_value() == 0x38524742,
            Format::Xrgb4444.wire_value() == 0x32315258,
            Format::Xbgr4444.wire_value() == 0x32314258,
            Format::Rgbx4444.wire_value() == 0x32315852,
            Format::Bgrx4444.wire_value() == 0x32315842,
            Format::Argb4444.wire_value() == 0x32315241,
            Format::Abgr4444.wire_value() == 0x32314241,
            Format::Rgba4444.wire_value() == 0x32314152,
            Format::Bgra4444.wire_value() == 0x32314142,
            Format::Xrgb1555.wire_value() == 0x35315258,
            Format::Xbgr1555.wire_value() == 0x35314258,
            Format::Rgbx5551.wire_value() == 0x35315852,
            Format::Bgrx5551.wire_value() == 0x35315842,
            Format::Argb1555.wire_value() == 0x35315241,
            Format::Abgr1555.wire_value() == 0x35314241,
            Format::Rgba5551.wire_value() == 0x35314152,
            Format::Bgra5551.wire_value() == 0x35314142,
            Format::Rgb565.wire_value() == 0x36314752,
            Format::Bgr565.wire_value() == 0x36314742,
            Format::Rgb888.wire_value() == 0x34324752,
            Format::Bgr888.wire_value() == 0x34324742,
            Format::Xbgr8888.wire_value() == 0x34324258,
            Format::Rgbx8888.wire_value() == 0x34325852,
            Format::Bgrx8888.wire_value() == 0x34325842,
            Format::Abgr8888.wire_value() == 0x34324241,
            Format::Rgba8888.wire_value() == 0x34324152,
            Format::Bgra8888.wire_value() == 0x34324142,
            Format::Xrgb2101010.wire_value() == 0x30335258,
            Format::Xbgr2101010.wire_value() == 0x30334258,
            Format::Rgbx1010102.wire_value() == 0x30335852,
            Format::Bgrx1010102.wire_value() == 0x30335842,
            Format::Argb2101010.wire_value() == 0x30335241,
            Format::Abgr2101010.wire_value() == 0x30334241,
            Format::Rgba1010102.wire_value() == 0x30334152,
            Format::Bgra1010102.wire_value() == 0x30334142,
            Format::Yuyv.wire_value() == 0x56595559,
            Format::Yvyu.wire_value() == 0x55595659,
            Format::Uyvy.wire_value() == 0x59565955,
            Format::Vyuy.wire_value() == 0x59555956,
            Format::Ayuv.wire_value() == 0x56555941,
            Format::Nv12.wire_value() == 0x3231564e,
            Format::Nv21.wire_value() == 0x3132564e,
            Format::Nv16.wire_value() == 0x3631564e,
            Format::Nv61.wire_value() == 0x3136564e,
            Format::Yuv410.wire_value() == 0x39565559,
            Format::Yvu410.wire_value() == 0x39555659,
            Format::Yuv411.wire_value() == 0x31315559,
            Format::Yvu411.wire_value() == 0x31315659,
            Format::Yuv420.wire_value() == 0x32315559,
            Format::Yvu420.wire_value() == 0x32315659,
            Format::Yuv422.wire_value() == 0x36315559,
            Format::Yvu422.wire_value() == 0x36315659,
            Format::Yuv444.wire_value() == 0x34325559,
            Format::Yvu444.wire_value() == 0x34325659,
            Format::R8.wire_value() == 0x20203852,
            Format::R16.wire_value() == 0x20363152,
            Format::Rg88.wire_value() == 0x38384752,
            Format::Gr88.wire_value() == 0x38385247,
            Format::Rg1616.wire_value() == 0x32334752,
            Format::Gr1616.wire_value() == 0x32335247,
            Format::Xrgb16161616f.wire_value() == 0x48345258,
            Format::Xbgr16161616f.wire_value() == 0x48344258,
            Format::Argb16161616f.wire_value() == 0x48345241,
            Format::Abgr16161616f.wire_value() == 0x48344241,
            Format::Xyuv8888.wire_value() == 0x56555958,
            Format::Vuy888.wire_value() == 0x34325556,
            Format::Vuy101010.wire_value() == 0x30335556,
            Format::Y210.wire_value() == 0x30313259,
            Format::Y212.wire_value() == 0x32313259,
            Format::Y216.wire_value() == 0x36313259,
            Format::Y410.wire_value() == 0x30313459,
            Format::Y412.wire_value() == 0x32313459,
            Format::Y416.wire_value() == 0x36313459,
            Format::Xvyu2101010.wire_value() == 0x30335658,
            Format::Xvyu1216161616.wire_value() == 0x36335658,
            Format::Xvyu16161616.wire_value() == 0x38345658,
            Format::Y0l0.wire_value() == 0x304c3059,
            Format::X0l0.wire_value() == 0x304c3058,
            Format::Y0l2.wire_value() == 0x324c3059,
            Format::X0l2.wire_value() == 0x324c3058,
            Format::Yuv4208bit.wire_value() == 0x38305559,
            Format::Yuv42010bit.wire_value() == 0x30315559,
            Format::Xrgb8888A8.wire_value() == 0x38415258,
            Format::Xbgr8888A8.wire_value() == 0x38414258,
            Format::Rgbx8888A8.wire_value() == 0x38415852,
            Format::Bgrx8888A8.wire_value() == 0x38415842,
            Format::Rgb888A8.wire_value() == 0x38413852,
            Format::Bgr888A8.wire_value() == 0x38413842,
            Format::Rgb565A8.wire_value() == 0x38413552,
            Format::Bgr565A8.wire_value() == 0x38413542,
            Format::Nv24.wire_value() == 0x3432564e,
            Format::Nv42.wire_value() == 0x3234564e,
            Format::P210.wire_value() == 0x30313250,
            Format::P010.wire_value() == 0x30313050,
            Format::P012.wire_value() == 0x32313050,
            Format::P016.wire_value() == 0x36313050,
            Format::Axbxgxrx106106106106.wire_value() == 0x30314241,
            Format::Nv15.wire_value() == 0x3531564e,
            Format::Q410.wire_value() == 0x30313451,
            Format::Q401.wire_value() == 0x31303451,
            Format::Xrgb16161616.wire_value() == 0x38345258,
            Format::Xbgr16161616.wire_value() == 0x38344258,
            Format::Argb16161616.wire_value() == 0x38345241,
            Format::Abgr16161616.wire_value() == 0x38344241,
            Format::C1.wire_value() == 0x20203143,
            Format::C2.wire_value() == 0x20203243,
            Format::C4.wire_value() == 0x20203443,
            Format::D1.wire_value() == 0x20203144,
            Format::D2.wire_value() == 0x20203244,
            Format::D4.wire_value() == 0x20203444,
            Format::D8.wire_value() == 0x20203844,
            Format::R1.wire_value() == 0x20203152,
            Format::R2.wire_value() == 0x20203252,
            Format::R4.wire_value() == 0x20203452,
            Format::R10.wire_value() == 0x20303152,
            Format::R12.wire_value() == 0x20323152,
            Format::Avuy8888.wire_value() == 0x59555641,
            Format::Xvuy8888.wire_value() == 0x59555658,
            Format::P030.wire_value() == 0x30333050,
            Self::from_wire(0) == Ok::<Self, DecodeError>(Format::Argb8888),
            Self::from_wire(1) == Ok::<Self, DecodeError>(Format::Xrgb8888),
            Self::from_wire(0x20203843) == Ok::<Self, DecodeError>(Format::C8),
            Self::from_wire(0x38424752) == Ok::<Self, DecodeError>(Format::Rgb332),
            Self::from_wire(0x38524742) == Ok::<Self, DecodeError>(Format::Bgr233),
            Self::from_wire(0x32315258) == Ok::<Self, DecodeError>(Format::Xrgb4444),
            Self::from_wire(0x32314258) == Ok::<Self, DecodeError>(Format::Xbgr4444),
            Self::from_wire(0x32315852) == Ok::<Self, DecodeError>(Format::Rgbx4444),
            Self::from_wire(0x32315842) == Ok::<Self, DecodeError>(Format::Bgrx4444),
            Self::from_wire(0x32315241) == Ok::<Self, DecodeError>(Format::Argb4444),
            Self::from_wire(0x32314241) == Ok::<Self, DecodeError>(Format::Abgr4444),
            Self::from_wire(0x32314152) == Ok::<Self, DecodeError>(Format::Rgba4444),
            Self::from_wire(0x32314142) == Ok::<Self, DecodeError>(Format::Bgra4444),
            Self::from_wire(0x35315258) == Ok::<Self, DecodeError>(Format::Xrgb1555),
            Self::from_wire(0x35314258) == Ok::<Self, DecodeError>(Format::Xbgr1555),
            Self::from_wire(0x35315852) == Ok::<Self, DecodeError>(Format::Rgbx5551),
            Self::from_wire(0x35315842) == Ok::<Self, DecodeError>(Format::Bgrx5551),
            Self::from_wire(0x35315241) == Ok::<Self, DecodeError>(Format::Argb1555),
            Self::from_wire(0x35314241) == Ok::<Self, DecodeError>(Format::Abgr1555),
            Self::from_wire(0x35314152) == Ok::<Self, DecodeError>(Format::Rgba5551),
            Self::from_wire(0x35314142) == Ok::<Self, DecodeError>(Format::Bgra5551),
            Self::from_wire(0x36314752) == Ok::<Self, DecodeError>(Format::Rgb565),
            Self::from_wire(0x36314742) == Ok::<Self, DecodeError>(Format::Bgr565),
            Self::from_wire(0x34324752) == Ok::<Self, DecodeError>(Format::Rgb888),
            Self::from_wire(0x34324742) == Ok::<Self, DecodeError>(Format::Bgr888),
            Self::from_wire(0x34324258) == Ok::<Self, DecodeError>(Format::Xbgr8888),
            Self::from_wire(0x34325852) == Ok::<Self, DecodeError>(Format::Rgbx8888),
            Self::from_wire(0x34325842) == Ok::<Self, DecodeError>(Format::Bgrx8888),
            Self::from_wire(0x34324241) == Ok::<Self, DecodeError>(Format::Abgr8888),
            Self::from_wire(0x34324152) == Ok::<Self, DecodeError>(Format::Rgba8888),
            Self::from_wire(0x34324142) == Ok::<Self, DecodeError>(Format::Bgra8888),
            Self::from_wire(0x30335258) == Ok::<Self, DecodeError>(Format::Xrgb2101010),
            Self::from_wire(0x30334258) == Ok::<Self, DecodeError>(Format::Xbgr2101010),
            Self::from_wire(0x30335852) == Ok::<Self, DecodeError>(Format::Rgbx1010102),
            Self::from_wire(0x30335842) == Ok::<Self, DecodeError>(Format::Bgrx1010102),
            Self::from_wire(0x30335241) == Ok::<Self, DecodeError>(Format::Argb2101010),
            Self::from_wire(0x30334241) == Ok::<Self, DecodeError>(Format::Abgr2101010),
            Self::from_wire(0x30334152) == Ok::<Self, DecodeError>(Format::Rgba1010102),
            Self::from_wire(0x30334142) == Ok::<Self, DecodeError>(Format::Bgra1010102),
            Self::from_wire(0x56595559) == Ok::<Self, DecodeError>(Format::Yuyv),
            Self::from_wire(0x55595659) == Ok::<Self, DecodeError>(Format::Yvyu),
            Self::from_wire(0x59565955) == Ok::<Self, DecodeError>(Format::Uyvy),
            Self::from_wire(0x59555956) == Ok::<Self, DecodeError>(Format::Vyuy),
            Self::from_wire(0x56555941) == Ok::<Self, DecodeError>(Format::Ayuv),
            Self::from_wire(0x3231564e) == Ok::<Self, DecodeError>(Format::Nv12),
            Self::from_wire(0x3132564e) == Ok::<Self, DecodeError>(Format::Nv21),
            Self::from_wire(0x3631564e) == Ok::<Self, DecodeError>(Format::Nv16),
            Self::from_wire(0x3136564e) == Ok::<Self, DecodeError>(Format::Nv61),
            Self::from_wire(0x39565559) == Ok::<Self, DecodeError>(Format::Yuv410),
            Self::from_wire(0x39555659) == Ok::<Self, DecodeError>(Format::Yvu410),
            Self::from_wire(0x31315559) == Ok::<Self, DecodeError>(Format::Yuv411),
            Self::from_wire(0x31315659) == Ok::<Self, DecodeError>(Format::Yvu411),
            Self::from_wire(0x32315559) == Ok::<Self, DecodeError>(Format::Yuv420),
            Self::from_wire(0x32315659) == Ok::<Self, DecodeError>(Format::Yvu420),
            Self::from_wire(0x36315559) == Ok::<Self, DecodeError>(Format::Yuv422),
            Self::from_wire(0x36315659) == Ok::<Self, DecodeError>(Format::Yvu422),
            Self::from_wire(0x34325559) == Ok::<Self, DecodeError>(Format::Yuv444),
            Self::from_wire(0x34325659) == Ok::<Self, DecodeError>(Format::Yvu444),
            Self::from_wire(0x20203852) == Ok::<Self, DecodeError>(Format::R8),
            Self::from_wire(0x20363152) == Ok::<Self, DecodeError>(Format::R16),
            Self::from_wire(0x38384752) == Ok::<Self, DecodeError>(Format::Rg88),
            Self::from_wire(0x38385247) == Ok::<Self, DecodeError>(Format::Gr88),
            Self::from_wire(0x32334752) == Ok::<Self, DecodeError>(Format::Rg1616),
            Self::from_wire(0x32335247) == Ok::<Self, DecodeError>(Format::Gr1616),
            Self::from_wire(0x48345258) == Ok::<Self, DecodeError>(Format::Xrgb16161616f),
            Self::from_wire(0x48344258) == Ok::<Self, DecodeError>(Format::Xbgr16161616f),
            Self::from_wire(0x48345241) == Ok::<Self, DecodeError>(Format::Argb16161616f),
            Self::from_wire(0x48344241) == Ok::<Self, DecodeError>(Format::Abgr16161616f),
            Self::from_wire(0x56555958) == Ok::<Self, DecodeError>(Format::Xyuv8888),
            Self::from_wire(0x34325556) == Ok::<Self, DecodeError>(Format::Vuy888),
            Self::from_wire(0x30335556) == Ok::<Self, DecodeError>(Format::Vuy101010),
            Self::from_wire(0x30313259) == Ok::<Self, DecodeError>(Format::Y210),
            Self::from_wire(0x32313259) == Ok::<Self, DecodeError>(Format::Y212),
            Self::from_wire(0x36313259) == Ok::<Self, DecodeError>(Format::Y216),
            Self::from_wire(0x30313459) == Ok::<Self, DecodeError>(Format::Y410),
            Self::from_wire(0x32313459) == Ok::<Self, DecodeError>(Format::Y412),
            Self::from_wire(0x36313459) == Ok::<Self, DecodeError>(Format::Y416),
            Self::from_wire(0x30335658) == Ok::<Self, DecodeError>(Format::Xvyu2101010),
            Self::from_wire(0x36335658) == Ok::<Self, DecodeError>(Format::Xvyu1216161616),
            Self::from_wire(0x38345658) == Ok::<Self, DecodeError>(Format::Xvyu16161616),
            Self::from_wire(0x304c3059) == Ok::<Self, DecodeError>(Format::Y0l0),
            Self::from_wire(0x304c3058) == Ok::<Self, DecodeError>(Format::X0l0),
            Self::from_wire(0x324c3059) == Ok::<Self, DecodeError>(Format::Y0l2),
            Self::from_wire(0x324c3058) == Ok::<Self, DecodeError>(Format::X0l2),
            Self::from_wire(0x38305559) == Ok::<Self, DecodeError>(Format::Yuv4208bit),
            Self::from_wire(0x30315559) == Ok::<Self, DecodeError>(Format::Yuv42010bit),
            Self::from_wire(0x38415258) == Ok::<Self, DecodeError>(Format::Xrgb8888A8),
            Self::from_wire(0x38414258) == Ok::<Self, DecodeError>(Format::Xbgr8888A8),
            Self::from_wire(0x38415852) == Ok::<Self, DecodeError>(Format::Rgbx8888A8),
            Self::from_wire(0x38415842) == Ok::<Self, DecodeError>(Format::Bgrx8888A8),
            Self::from_wire(0x38413852) == Ok::<Self, DecodeError>(Format::Rgb888A8),
            Self::from_wire(0x38413842) == Ok::<Self, DecodeError>(Format::Bgr888A8),
            Self::from_wire(0x38413552) == Ok::<Self, DecodeError>(Format::Rgb565A8),
            Self::from_wire(0x38413542) == Ok::<Self, DecodeError>(Format::Bgr565A8),
            Self::from_wire(0x3432564e) == Ok::<Self, DecodeError>(Format::Nv24),
            Self::from_wire(0x3234564e) == Ok::<Self, DecodeError>(Format::Nv42),
            Self::from_wire(0x30313250) == Ok::<Self, DecodeError>(Format::P210),
            Self::from_wire(0x30313050) == Ok::<Self, DecodeError>(Format::P010),
            Self::from_wire(0x32313050) == Ok::<Self, DecodeError>(Format::P012),
            Self::from_wire(0x36313050) == Ok::<Self, DecodeError>(Format::P016),
            Self::from_wire(0x30314241) == Ok::<Self, DecodeError>(Format::Axbxgxrx106106106106),
            Self::from_wire(0x3531564e) == Ok::<Self, DecodeError>(Format::Nv15),
            Self::from_wire(0x30313451) == Ok::<Self, DecodeError>(Format::Q410),
            Self::from_wire(0x31303451) == Ok::<Self, DecodeError>(Format::Q401),
            Self::from_wire(0x38345258) == Ok::<Self, DecodeError>(Format::Xrgb16161616),
            Self::from_wire(0x38344258) == Ok::<Self, DecodeError>(Format::Xbgr16161616),
            Self::from_wire(0x38345241) == Ok::<Self, DecodeError>(Format::Argb16161616),
            Self::from_wire(0x38344241) == Ok::<Self, DecodeError>(Format::Abgr16161616),
            Self::from_wire(0x20203143) == Ok::<Self, DecodeError>(Format::C1),
            Self::from_wire(0x20203243) == Ok::<Self, DecodeError>(Format::C2),
            Self::from_wire(0x20203443) == Ok::<Self, DecodeError>(Format::C4),
            Self::from_wire(0x20203144) == Ok::<Self, DecodeError>(Format::D1),
            Self::from_wire(0x20203244) == Ok::<Self, DecodeError>(Format::D2),
            Self::from_wire(0x20203444) == Ok::<Self, DecodeError>(Format::D4),
            Self::from_wire(0x20203844) == Ok::<Self, DecodeError>(Format::D8),
            Self::from_wire(0x20203152) == Ok::<Self, DecodeError>(Format::R1),
            Self::from_wire(0x20203252) == Ok::<Self, DecodeError>(Format::R2),
            Self::from_wire(0x20203452) == Ok::<Self, DecodeError>(Format::R4),
            Self::from_wire(0x20303152) == Ok::<Self, DecodeError>(Format::R10),
            Self::from_wire(0x20323152) == Ok::<Self, DecodeError>(Format::R12),
            Self::from_wire(0x59555641) == Ok::<Self, DecodeError>(Format::Avuy8888),
            Self::from_wire(0x59555658) == Ok::<Self, DecodeError>(Format::Xvuy8888),
            Self::from_wire(0x30333050) == Ok::<Self, DecodeError>(Format::P030),
    {
    }
}

impl TryFrom<u32> for Format {
    type Error = DecodeError;

    fn try_from(v: u32) -> (r: Result<Self, DecodeError>) {
        match v {
            0 => Ok(Format::Argb8888),
            1 => Ok(Format::Xrgb8888),
            0x20203843 => Ok(Format::C8),
            0x38424752 => Ok(Format::Rgb332),
            0x38524742 => Ok(Format::Bgr233),
            0x32315258 => Ok(Format::Xrgb4444),
            0x32314258 => Ok(Format::Xbgr4444),
            0x32315852 => Ok(Format::Rgbx4444),
            0x32315842 => Ok(Format::Bgrx4444),
            0x32315241 => Ok(Format::Argb4444),
            0x32314241 => Ok(Format::Abgr4444),
            0x32314152 => Ok(Format::Rgba4444),
            0x32314142 => Ok(Format::Bgra4444),
            0x35315258 => Ok(Format::Xrgb1555),
            0x35314258 => Ok(Format::Xbgr1555),
            0x35315852 => Ok(Format::Rgbx5551),
            0x35315842 => Ok(Format::Bgrx5551),
            0x35315241 => Ok(Format::Argb1555),
            0x35314241 => Ok(Format::Abgr1555),
            0x35314152 => Ok(Format::Rgba5551),
            0x35314142 => Ok(Format::Bgra5551),
            0x36314752 => Ok(Format::Rgb565),
            0x36314742 => Ok(Format::Bgr565),
            0x34324752 => Ok(Format::Rgb888),
            0x34324742 => Ok(Format::Bgr888),
            0x34324258 => Ok(Format::Xbgr8888),
            0x34325852 => Ok(Format::Rgbx8888),
            0x34325842 => Ok(Format::Bgrx8888),
            0x34324241 => Ok(Format::Abgr8888),
            0x34324152 => Ok(Format::Rgba8888),
            0x34324142 => Ok(Format::Bgra8888),
            0x30335258 => Ok(Format::Xrgb2101010),
            0x30334258 => Ok(Format::Xbgr2101010),
            0x30335852 => Ok(Format::Rgbx1010102),
            0x30335842 => Ok(Format::Bgrx1010102),
            0x30335241 => Ok(Format::Argb2101010),
            0x30334241 => Ok(Format::Abgr2101010),
            0x30334152 => Ok(Format::Rgba1010102),
            0x30334142 => Ok(Format::Bgra1010102),
            0x56595559 => Ok(Format::Yuyv),
            0x55595659 => Ok(Format::Yvyu),
            0x59565955 => Ok(Format::Uyvy),
            0x59555956 => Ok(Format::Vyuy),
            0x56555941 => Ok(Format::Ayuv),
            0x3231564e => Ok(Format::Nv12),
            0x3132564e => Ok(Format::Nv21),
            0x3631564e => Ok(Format::Nv16),
            0x3136564e => Ok(Format::Nv61),
            0x39565559 => Ok(Format::Yuv410),
            0x39555659 => Ok(Format::Yvu410),
            0x31315559 => Ok(Format::Yuv411),
            0x31315659 => Ok(Format::Yvu411),
            0x32315559 => Ok(Format::Yuv420),
            0x32315659 => Ok(Format::Yvu420),
            0x36315559 => Ok(Format::Yuv422),
            0x36315659 => Ok(Format::Yvu422),
            0x34325559 => Ok(Format::Yuv444),
            0x34325659 => Ok(Format::Yvu444),
            0x20203852 => Ok(Format::R8),
            0x20363152 => Ok(Format::R16),
            0x38384752 => Ok(Format::Rg88),
            0x38385247 => Ok(Format::Gr88),
            0x32334752 => Ok(Format::Rg1616),
            0x32335247 => Ok(Format::Gr1616),
            0x48345258 => Ok(Format::Xrgb16161616f),
            0x48344258 => Ok(Format::Xbgr16161616f),
            0x48345241 => Ok(Format::Argb16161616f),
            0x48344241 => Ok(Format::Abgr16161616f),
            0x56555958 => Ok(Format::Xyuv8888),
            0x34325556 => Ok(Format::Vuy888),
            0x30335556 => Ok(Format::Vuy101010),
            0x30313259 => Ok(Format::Y210),
            0x32313259 => Ok(Format::Y212),
            0x36313259 => Ok(Format::Y216),
            0x30313459 => Ok(Format::Y410),
            0x32313459 => Ok(Format::Y412),
            0x36313459 => Ok(Format::Y416),
            0x30335658 => Ok(Format::Xvyu2101010),
            0x36335658 => Ok(Format::Xvyu1216161616),
            0x38345658 => Ok(Format::Xvyu16161616),
            0x304c3059 => Ok(Format::Y0l0),
            0x304c3058 => Ok(Format::X0l0),
            0x324c3059 => Ok(Format::Y0l2),
            0x324c3058 => Ok(Format::X0l2),
            0x38305559 => Ok(Format::Yuv4208bit),
            0x30315559 => Ok(Format::Yuv42010bit),
            0x38415258 => Ok(Format::Xrgb8888A8),
            0x38414258 => Ok(Format::Xbgr8888A8),
            0x38415852 => Ok(Format::Rgbx8888A8),
            0x38415842 => Ok(Format::Bgrx8888A8),
            0x38413852 => Ok(Format::Rgb888A8),
            0x38413842 => Ok(Format::Bgr888A8),
            0x38413552 => Ok(Format::Rgb565A8),
            0x38413542 => Ok(Format::Bgr565A8),
            0x3432564e => Ok(Format::Nv24),
            0x3234564e => Ok(Format::Nv42),
            0x30313250 => Ok(Format::P210),
            0x30313050 => Ok(Format::P010),
            0x32313050 => Ok(Format::P012),
            0x36313050 => Ok(Format::P016),
            0x30314241 => Ok(Format::Axbxgxrx106106106106),
            0x3531564e => Ok(Format::Nv15),
            0x30313451 => Ok(Format::Q410),
            0x31303451 => Ok(Format::Q401),
            0x38345258 => Ok(Format::Xrgb16161616),
            0x38344258 => Ok(Format::Xbgr16161616),
            0x38345241 => Ok(Format::Argb16161616),
            0x38344241 => Ok(Format::Abgr16161616),
            0x20203143 => Ok(Format::C1),
            0x20203243 => Ok(Format::C2),
            0x20203443 => Ok(Format::C4),
            0x20203144 => Ok(Format::D1),
            0x20203244 => Ok(Format::D2),
            0x20203444 => Ok(Format::D4),
            0x20203844 => Ok(Format::D8),
            0x20203152 => Ok(Format::R1),
            0x20203252 => Ok(Format::R2),
            0x20203452 => Ok(Format::R4),
            0x20303152 => Ok(Format::R10),
            0x20323152 => Ok(Format::R12),
            0x59555641 => Ok(Format::Avuy8888),
            0x59555658 => Ok(Format::Xvuy8888),
            0x30333050 => Ok(Format::P030),
            _ => Err(DecodeError::MalformedPayload),
        }
    }
}

impl vstd::std_specs::convert::TryFromSpecImpl<u32> for Format {
    open spec fn obeys_try_from_spec() -> bool {
        true
    }

    open spec fn try_from_spec(v: u32) -> Result<Self, DecodeError> {
        Self::from_wire(v)
    }
}

/// A request of `wl_shm`, decoded from the wire.
#[derive(Debug)]
pub enum Request {
    /// Create a new wl_shm_pool object.
    CreatePool {
        id: u32,
        fd: i32,
        size: i32,
    },
    /// Using this request a client can tell the server that it is not going to
    /// use the shm object anymore.
    Release,
}

/// The kinds of the arguments of the request with opcode `opcode`.
pub open spec fn request_signature(opcode: u16) -> Option<Seq<ArgKind>> {
    match opcode {
        0 => Some(seq![ArgKind::Object, ArgKind::Fd, ArgKind::Int]),
        1 => Some(Seq::<ArgKind>::empty()),
        _ => None,
    }
}

/// Whether decoded arguments hold, where the request takes an enumeration or
/// a bit set, a word that stands for one.
pub open spec fn request_args_valid(opcode: u16, vals: Seq<ArgValue>) -> bool {
    true
}

/// Whether `req` is the request with opcode `opcode` and arguments `vals`.
pub open spec fn request_fits(req: Request, opcode: u16, vals: Seq<ArgValue>) -> bool {
    match req {
        Request::CreatePool { id, fd, size } => {
            &&& opcode == 0
            &&& vals == seq![ArgValue::Object(id), ArgValue::Fd(fd), ArgValue::Int(size)]
        },
        Request::Release => {
            &&& opcode == 1
            &&& vals == Seq::<ArgValue>::empty()
        },
    }
}

/// What decoding a request with opcode `opcode` from the payload and file
/// descriptors of `c` gives.
pub open spec fn request_outcome(opcode: u16, c: Cursor, r: Result<Request, RequestError>) -> bool {
    match request_signature(opcode) {
        None => r == Err::<Request, RequestError>(RequestError::UnknownOpcode(opcode)),
        Some(sig) => match spec_read_args(sig, c) {
            None => r == Err::<Request, RequestError>(RequestError::MalformedPayload),
            Some((vals, _)) => if request_args_valid(opcode, vals) {
                r matches Ok(req) && request_fits(req, opcode, vals)
            } else {
                r == Err::<Request, RequestError>(RequestError::MalformedPayload)
            },
        },
    }
}

/// A message that carries, for an object of `wl_shm`, arguments `vals` of
/// the kinds the request with opcode `opcode` takes decodes to that request
/// with those arguments, where they fit the wire and name known values of
/// its enumerations; where they name unknown values, it is refused as
/// malformed.
pub proof fn lemma_request_roundtrip(
    m: Message,
    object: u32,
    opcode: u16,
    vals: Seq<ArgValue>,
    r: Result<Request, RequestError>,
)
    requires
        request_signature(opcode) == Some(kinds_of(vals)),
        carries(m, object, opcode, vals),
        all_fit_wire(vals),
        request_outcome(message_opcode(m), cursor_of(m), r),
    ensures
        request_args_valid(opcode, vals) ==> (r matches Ok(req) && request_fits(req, opcode, vals)),
        !request_args_valid(opcode, vals) ==> r == Err::<Request, RequestError>(
            RequestError::MalformedPayload,
        ),
{
}

fn signature(opcode: u16) -> (r: Option<Vec<ArgKind>>)
    ensures
        match request_signature(opcode) {
            None => r is None,
            Some(sig) => r matches Some(v) && v@ == sig,
        },
{
    match opcode {
        0 => Some(vec![ArgKind::Object, ArgKind::Fd, ArgKind::Int]),
        1 => Some(Vec::new()),
        _ => None,
    }
}

fn decode_create_pool(args: Vec<Arg>) -> (r: Result<Request, RequestError>)
    requires
        kinds_of(views(args@)) == seq![ArgKind::Object, ArgKind::Fd, ArgKind::Int],
    ensures
        if request_args_valid(0, views(args@)) {
            r matches Ok(req) && request_fits(req, 0, views(args@))
        } else {
            r == Err::<Request, RequestError>(RequestError::MalformedPayload)
        },
{
    let ghost vals = views(args@);
    let mut args = args;
    proof {
        lemma_kinds_of(vals);
    }
    assert(vals.len() == 3);
    assert(views(args@) =~= vals.skip(0));
    assert(kind_of(vals[0]) == ArgKind::Object);
    let id = take_object(&mut args);
    assert(views(args@) =~= vals.skip(1));
    assert(kind_of(vals[1]) == ArgKind::Fd);
    let fd = take_fd(&mut args);
    assert(views(args@) =~= vals.skip(2));
    assert(kind_of(vals[2]) == ArgKind::Int);
    let size = take_int(&mut args);
    assert(vals =~= seq![ArgValue::Object(id), ArgValue::Fd(fd), ArgValue::Int(size)]);
    Ok(Request::CreatePool { id, fd, size })
}

fn decode_release(args: Vec<Arg>) -> (r: Result<Request, RequestError>)
    requires
        kinds_of(views(args@)) == Seq::<ArgKind>::empty(),
    ensures
        if request_args_valid(1, views(args@)) {
            r matches Ok(req) && request_fits(req, 1, views(args@))
        } else {
            r == Err::<Request, RequestError>(RequestError::MalformedPayload)
        },
{
    let ghost vals = views(args@);
    proof {
        lemma_kinds_of(vals);
    }
    assert(vals =~= Seq::<ArgValue>::empty());
    Ok(Request::Release)
}

fn into_request(opcode: u16, args: Vec<Arg>) -> (r: Result<Request, RequestError>)
    requires
        request_signature(opcode) == Some(kinds_of(views(args@))),
    ensures
        if request_args_valid(opcode, views(args@)) {
            r matches Ok(req) && request_fits(req, opcode, views(args@))
        } else {
            r == Err::<Request, RequestError>(RequestError::MalformedPayload)
        },
{
    match opcode {
        0 => decode_create_pool(args),
        1 => decode_release(args),
        _ => {
            proof {
                assert(false);
            }
            Err(RequestError::UnknownOpcode(opcode))
        },
    }
}

/// Decodes the request a message carries for a `wl_shm` object: its opcode
/// picks the request, and its payload and file descriptors give the
/// arguments, in order.
///
/// A request that takes a file descriptor hands it to `OwnedFd`, so the
/// descriptors the message carries may not be -1.
pub fn handle_request(message: &mut Message) -> (r: Result<Request, RequestError>)
    requires
        (request_signature(message_opcode(*old(message))) matches Some(sig) && sig.contains(
            ArgKind::Fd,
        )) ==> fds_valid(pending_fds(*old(message))),
    ensures
        same_header(*old(message), *final(message)),
        request_outcome(message_opcode(*old(message)), cursor_of(*old(message)), r),
{
    let opcode = opcode_of(message);
    match signature(opcode) {
        None => Err(RequestError::UnknownOpcode(opcode)),
        Some(sig) => match read_args(message, &sig) {
            None => Err(RequestError::MalformedPayload),
            Some(args) => into_request(opcode, args),
        },
    }
}

/// Informs the client about a valid pixel format that
/// can be used for buffers. Known formats include
/// argb8888 and xrgb8888.
///
/// The message of this event, from the object `object`.
pub fn format(object: u32, format_value: Format) -> (m: Message)
    requires
        object != 0,
    ensures
        carries(m, object, 0, seq![ArgValue::Uint(format_value.wire_value())]),
        pending_fds(m) == Seq::<i32>::empty(),
{
    let args = vec![Arg::Uint(format_value.to_wire())];
    assert(views(args@) =~= seq![ArgValue::Uint(format_value.wire_value())]);
    encode_message(object, 0, &args)
}

/// The requests of `wl_shm` as the protocol defines them: the opcode of
/// each, the kinds of its arguments in order, and the field each argument
/// fills; no other opcode names a request.
pub proof fn lemma_protocol_requests()
    ensures
        request_signature(0) == Some(seq![ArgKind::Object, ArgKind::Fd, ArgKind::Int]),
        request_signature(1) == Some(Seq::<ArgKind>::empty()),
        forall|opcode: u16| opcode >= 2 ==> #[trigger] request_signature(opcode) is None,
        forall|req: Request, vals: Seq<ArgValue>| #[trigger] request_fits(req, 0, vals) <==> (req matches Request::CreatePool { id, fd, size } && vals == seq![
            ArgValue::Object(id),
            ArgValue::Fd(fd),
            ArgValue::Int(size),
        ]),
        forall|req: Request, vals: Seq<ArgValue>| #[trigger] request_fits(req, 1, vals) <==> (req is Release && vals == Seq::<ArgValue>::empty()),
{
}

} // verus!
