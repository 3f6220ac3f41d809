//! Pixel formats, crop rectangles and the byte layout of frames.
//!
//! A pixel format is a four-character code packed into a `u32`, first
//! character in the lowest byte. Five formats have a known row layout; every
//! other code can still be carried through the pipeline, but has no size.

use vstd::prelude::*;

verus! {

/// RGB 24-bit pixel format (8 bits per channel, no alpha): `"RGB3"`.
pub const RGB3: u32 = 0x3342_4752;

/// RGBX 32-bit pixel format (8 bits per channel, unused alpha): `"RGBX"`.
pub const RGBX: u32 = 0x5842_4752;

/// RGBA 32-bit pixel format (8 bits per channel, with alpha): `"RGBA"`.
pub const RGBA: u32 = 0x4142_4752;

/// YUYV 4:2:2 YUV packed format (common camera output format): `"YUYV"`.
pub const YUYV: u32 = 0x5659_5559;

/// NV12 4:2:0 YUV semi-planar format (efficient for video encoding): `"NV12"`.
pub const NV12: u32 = 0x3231_564E;

/// The code of the four characters `a b c d`.
pub open spec fn fourcc_code(a: u8, b: u8, c: u8, d: u8) -> int {
    a + 0x100 * b + 0x1_0000 * c + 0x100_0000 * d
}

/// Packs four characters into a format code.
pub fn fourcc(a: u8, b: u8, c: u8, d: u8) -> (code: u32)
    ensures
        code == fourcc_code(a, b, c, d),
{
    let low: u32 = a as u32 + 0x100 * (b as u32);
    let high: u32 = c as u32 + 0x100 * (d as u32);
    low + 0x1_0000 * high
}

/// Unpacks a format code into its four characters.
pub fn fourcc_chars(code: u32) -> (chars: (u8, u8, u8, u8))
    ensures
        fourcc_code(chars.0, chars.1, chars.2, chars.3) == code,
{
    let a: u8 = (code % 0x100) as u8;
    let b: u8 = ((code / 0x100) % 0x100) as u8;
    let c: u8 = ((code / 0x1_0000) % 0x100) as u8;
    let d: u8 = (code / 0x100_0000) as u8;
    (a, b, c, d)
}

/// Two packings are equal only if their characters are: a format code names
/// exactly one sequence of four characters.
pub proof fn fourcc_is_injective(a: u8, b: u8, c: u8, d: u8, e: u8, f: u8, g: u8, h: u8)
    requires
        fourcc_code(a, b, c, d) == fourcc_code(e, f, g, h),
    ensures
        a == e,
        b == f,
        c == g,
        d == h,
{
}

/// Whether `format` is one of the five formats with a known row layout.
pub open spec fn has_layout(format: u32) -> bool {
    format == RGB3 || format == RGBX || format == RGBA || format == YUYV || format == NV12
}

/// Bytes in one row of `width` pixels, for a format with a known layout.
///
/// The packed RGB and YUV formats take a whole number of bytes per pixel. A
/// row of NV12 is counted as its luma row plus half as much again (rounded
/// down) for the interleaved chroma.
pub open spec fn row_stride(format: u32, width: nat) -> nat
    recommends
        has_layout(format),
{
    if format == RGB3 {
        3 * width
    } else if format == RGBX || format == RGBA {
        4 * width
    } else if format == YUYV {
        2 * width
    } else {
        width / 2 + width
    }
}

/// Bytes in a whole image: one row stride for each of its `height` rows.
pub open spec fn image_bytes(width: nat, height: nat, format: u32) -> nat
    recommends
        has_layout(format),
{
    row_stride(format, width) * height
}

/// Whether the size of such an image can be computed in `usize`: the format
/// has a layout, and neither a row nor the whole image exceeds the machine's
/// address range.
pub open spec fn sizeable(width: nat, height: nat, format: u32) -> bool {
    &&& has_layout(format)
    &&& row_stride(format, width) <= usize::MAX
    &&& image_bytes(width, height, format) <= usize::MAX
}

/// Decides whether `format` has a known row layout.
pub fn is_supported(format: u32) -> (known: bool)
    ensures
        known == has_layout(format),
{
    format == RGB3 || format == RGBX || format == RGBA || format == YUYV || format == NV12
}

/// Bytes per pixel row, as a multiple of the width where there is one.
fn checked_row_stride(format: u32, width: u32) -> (stride: Option<usize>)
    ensures
        stride is Some <==> has_layout(format) && row_stride(format, width as nat) <= usize::MAX,
        stride matches Some(s) ==> s == row_stride(format, width as nat),
{
    if !is_supported(format) {
        return None;
    }
    let wide: u64 = width as u64;
    let bytes: u64 = if format == RGB3 {
        3 * wide
    } else if format == RGBX || format == RGBA {
        4 * wide
    } else if format == YUYV {
        2 * wide
    } else {
        wide / 2 + wide
    };
    if bytes <= usize::MAX as u64 {
        Some(bytes as usize)
    } else {
        None
    }
}

/// Decides whether the byte size of a `width` x `height` image of `format`
/// can be computed, that is whether [`image_size`] may be called.
pub fn can_size(width: u32, height: u32, format: u32) -> (fits: bool)
    ensures
        fits == sizeable(width as nat, height as nat, format),
{
    match checked_row_stride(format, width) {
        None => false,
        Some(stride) => {
            let total = stride.checked_mul(height as usize);
            proof {
                assert(height as usize == height);
            }
            total.is_some()
        },
    }
}

/// Bytes in one row of `width` pixels of `format`.
pub fn format_row_stride(format: u32, width: u32) -> (stride: usize)
    requires
        has_layout(format),
        row_stride(format, width as nat) <= usize::MAX,
    ensures
        stride == row_stride(format, width as nat),
{
    if format == RGB3 {
        3 * (width as usize)
    } else if format == RGBX || format == RGBA {
        4 * (width as usize)
    } else if format == YUYV {
        2 * (width as usize)
    } else {
        width as usize / 2 + width as usize
    }
}

/// Bytes in a `width` x `height` image of `format`.
pub fn image_size(width: u32, height: u32, format: u32) -> (size: usize)
    requires
        sizeable(width as nat, height as nat, format),
    ensures
        size == image_bytes(width as nat, height as nat, format),
{
    format_row_stride(format, width) * (height as usize)
}

/// A rectangle of the integer pixel plane.
pub struct Region {
    pub x: int,
    pub y: int,
    pub width: int,
    pub height: int,
}

impl Region {
    /// The first column to the right of the region.
    pub open spec fn right(self) -> int {
        self.x + self.width
    }

    /// The first row below the region.
    pub open spec fn bottom(self) -> int {
        self.y + self.height
    }

    /// Whether the pixel at column `px`, row `py` lies in the region.
    pub open spec fn contains(self, px: int, py: int) -> bool {
        self.x <= px < self.right() && self.y <= py < self.bottom()
    }

    /// The number of pixels in the region.
    pub open spec fn area(self) -> int {
        self.width * self.height
    }
}

/// Rectangle specification for crop operations.
///
/// Defines a rectangular region within an image for cropping,
/// tiling, or region-of-interest operations.
#[derive(Clone, Copy, Debug, PartialEq, Eq, Structural)]
pub struct Rect {
    /// X coordinate of top-left corner
    pub x: i32,
    /// Y coordinate of top-left corner
    pub y: i32,
    /// Width of the rectangle in pixels
    pub width: i32,
    /// Height of the rectangle in pixels
    pub height: i32,
}

impl View for Rect {
    type V = Region;

    open spec fn view(&self) -> Region {
        Region { x: self.x as int, y: self.y as int, width: self.width as int, height: self.height as int }
    }
}

/// Image rotation angles supported by the converter, clockwise.
#[derive(Clone, Copy, Debug, PartialEq, Eq, Structural)]
pub enum Rotation {
    /// No rotation (0 degrees)
    Rotation0,
    /// Rotate 90 degrees clockwise
    Rotation90,
    /// Rotate 180 degrees
    Rotation180,
    /// Rotate 270 degrees clockwise (90 degrees counter-clockwise)
    Rotation270,
}

/// What a frame is, apart from its pixels.
pub struct ImageView {
    pub width: nat,
    pub height: nat,
    pub format: u32,
}

/// Description of one frame buffer: its dimensions and pixel format.
///
/// The buffer itself is owned by whoever allocated or captured it; this is
/// the part of a frame that geometry and sizing decisions read.
#[derive(Clone, Copy, Debug, PartialEq, Eq, Structural)]
pub struct Image {
    width: u32,
    height: u32,
    format: u32,
}

impl View for Image {
    type V = ImageView;

    closed spec fn view(&self) -> ImageView {
        ImageView { width: self.width as nat, height: self.height as nat, format: self.format }
    }
}

/// Why a frame has no surface for the converter.
#[derive(Clone, Copy, Debug, PartialEq, Eq, Structural)]
pub enum SurfaceError {
    /// The frame is wider or taller than a signed 32-bit coordinate can say.
    DimensionsTooLarge,
    /// The far edge of the crop rectangle is beyond the coordinate range.
    CropOutOfRange,
}

/// The window of a frame that a conversion reads or writes, in the signed
/// coordinates of the converter.
#[derive(Clone, Copy, Debug, PartialEq, Eq, Structural)]
pub struct Surface {
    pub left: i32,
    pub top: i32,
    pub right: i32,
    pub bottom: i32,
    pub stride: i32,
    pub width: i32,
    pub height: i32,
}

/// The surface of a whole `width` x `height` frame, cut down to `crop` where
/// one is given: the frame's own size and stride stay, the window becomes the
/// crop rectangle.
pub open spec fn surface_of(image: ImageView, crop: Option<Rect>) -> Surface {
    let (left, top, right, bottom) = match crop {
        Some(r) => (r@.x, r@.y, r@.right(), r@.bottom()),
        None => (0, 0, image.width as int, image.height as int),
    };
    Surface {
        left: left as i32,
        top: top as i32,
        right: right as i32,
        bottom: bottom as i32,
        stride: image.width as i32,
        width: image.width as i32,
        height: image.height as i32,
    }
}

/// Whether both far edges of `crop` are signed 32-bit coordinates.
pub open spec fn crop_in_range(crop: Option<Rect>) -> bool {
    crop matches Some(r) ==> i32::MIN <= r@.right() <= i32::MAX && i32::MIN <= r@.bottom()
        <= i32::MAX
}

impl Image {
    /// Describes a `width` x `height` frame of `format` whose size is known.
    pub fn new(width: u32, height: u32, format: u32) -> (image: Image)
        requires
            sizeable(width as nat, height as nat, format),
        ensures
            image@ == (ImageView { width: width as nat, height: height as nat, format }),
    {
        Image { width, height, format }
    }

    /// Describes a buffer that already exists, whatever its format.
    pub fn new_preallocated(width: u32, height: u32, format: u32) -> (image: Image)
        ensures
            image@ == (ImageView { width: width as nat, height: height as nat, format }),
    {
        Image { width, height, format }
    }

    /// Width in pixels.
    pub fn width(&self) -> (width: u32)
        ensures
            width == self@.width,
    {
        self.width
    }

    /// Height in pixels.
    pub fn height(&self) -> (height: u32)
        ensures
            height == self@.height,
    {
        self.height
    }

    /// Pixel format code.
    pub fn format(&self) -> (format: u32)
        ensures
            format == self@.format,
    {
        self.format
    }

    /// Decides whether [`Image::size`] may be called on this frame.
    pub fn has_size(&self) -> (fits: bool)
        ensures
            fits == sizeable(self@.width, self@.height, self@.format),
    {
        can_size(self.width, self.height, self.format)
    }

    /// Bytes in the frame's buffer.
    pub fn size(&self) -> (size: usize)
        requires
            sizeable(self@.width, self@.height, self@.format),
        ensures
            size == image_bytes(self@.width, self@.height, self@.format),
    {
        format_row_stride(self.format, self.width) * (self.height as usize)
    }

    /// The converter's view of this frame, restricted to `crop` if given.
    ///
    /// Fails when the frame's dimensions, or the far edges of the crop, do
    /// not fit the converter's signed coordinates; the dimensions are looked
    /// at first.
    pub fn surface(&self, crop: Option<Rect>) -> (surface: Result<Surface, SurfaceError>)
        ensures
            match surface {
                Ok(s) => {
                    &&& self@.width <= i32::MAX
                    &&& self@.height <= i32::MAX
                    &&& crop_in_range(crop)
                    &&& s == surface_of(self@, crop)
                },
                Err(SurfaceError::DimensionsTooLarge) => self@.width > i32::MAX || self@.height
                    > i32::MAX,
                Err(SurfaceError::CropOutOfRange) => self@.width <= i32::MAX && self@.height
                    <= i32::MAX && !crop_in_range(crop),
            },
    {
        if self.width > i32::MAX as u32 || self.height > i32::MAX as u32 {
            return Err(SurfaceError::DimensionsTooLarge);
        }
        let width: i32 = self.width as i32;
        let height: i32 = self.height as i32;
        match crop {
            None => Ok(
                Surface { left: 0, top: 0, right: width, bottom: height, stride: width, width, height },
            ),
            Some(r) => {
                let right = r.x.checked_add(r.width);
                let bottom = r.y.checked_add(r.height);
                match (right, bottom) {
                    (Some(right), Some(bottom)) => Ok(
                        Surface { left: r.x, top: r.y, right, bottom, stride: width, width, height },
                    ),
                    _ => Err(SurfaceError::CropOutOfRange),
                }
            },
        }
    }
}

/// Quality at which still images are compressed, from 1 to 100.
pub const JPEG_QUALITY: i32 = 100;

/// Bytes per pixel of the frames that are compressed to still images.
pub const JPEG_BYTES_PER_PIXEL: usize = 4;

/// Why a frame cannot be compressed to a still image.
#[derive(Clone, Copy, Debug, PartialEq, Eq, Structural)]
pub enum JpegError {
    /// No description came with the pixels.
    NoImage,
}

/// What the compressor is told of the pixels it is given: size in pixels and
/// the distance in bytes from one row to the next.
#[derive(Clone, Copy, Debug, PartialEq, Eq, Structural)]
pub struct JpegInput {
    pub width: usize,
    pub height: usize,
    pub pitch: usize,
}

impl JpegInput {
    /// Bytes that the pixels must at least have: every row but the last in
    /// full pitch, the last as far as its pixels go.
    pub open spec fn needed(self) -> int {
        if self.height == 0 {
            0
        } else {
            self.pitch * (self.height - 1) + self.width * JPEG_BYTES_PER_PIXEL
        }
    }

    /// Decides whether `len` bytes of pixels are enough for this input.
    pub fn accepts(&self, len: usize) -> (enough: bool)
        ensures
            enough == (self.needed() <= len),
    {
        if self.height == 0 {
            return true;
        }
        let rows = self.height - 1;
        assert(self.pitch * rows >= 0 && self.width * JPEG_BYTES_PER_PIXEL >= 0)
            by (nonlinear_arith)
            requires
                rows >= 0,
        ;
        match (self.pitch.checked_mul(rows), self.width.checked_mul(JPEG_BYTES_PER_PIXEL)) {
            (Some(body), Some(last)) => match body.checked_add(last) {
                Some(needed) => needed <= len,
                None => false,
            },
            _ => false,
        }
    }
}

/// Describes the pixels of `image` to the compressor: four bytes to the
/// pixel, rows without gaps. A frame without description is refused.
pub fn jpeg_input(image: Option<&Image>) -> (input: Result<JpegInput, JpegError>)
    requires
        image matches Some(i) ==> JPEG_BYTES_PER_PIXEL * i@.width <= usize::MAX,
    ensures
        match image {
            None => input == Err::<JpegInput, JpegError>(JpegError::NoImage),
            Some(i) => input == Ok::<JpegInput, JpegError>(
                JpegInput {
                    width: i@.width as usize,
                    height: i@.height as usize,
                    pitch: (JPEG_BYTES_PER_PIXEL * i@.width) as usize,
                },
            ),
        },
{
    match image {
        None => Err(JpegError::NoImage),
        Some(i) => Ok(
            JpegInput {
                width: i.width as usize,
                height: i.height as usize,
                pitch: i.width as usize * JPEG_BYTES_PER_PIXEL,
            },
        ),
    }
}

/// Version of the converter's library: major, minor, patch and build number.
#[derive(Clone, Copy, Debug, PartialEq, Eq, Structural)]
pub struct ConverterVersion {
    pub major: i64,
    pub minor: i64,
    pub patch: i64,
    pub num: i64,
}

/// Major version from which on surfaces carry wide plane addresses.
pub const WIDE_PLANES_MAJOR: i64 = 6;

/// Minor version from which on surfaces carry wide plane addresses.
pub const WIDE_PLANES_MINOR: i64 = 4;

/// Patch version from which on surfaces carry wide plane addresses.
pub const WIDE_PLANES_PATCH: i64 = 11;

/// Build number from which on surfaces carry wide plane addresses.
pub const WIDE_PLANES_NUM: i64 = 1049711;

impl ConverterVersion {
    /// Whether this version is `other` or a later one: versions are compared
    /// part by part, the first part that differs deciding.
    pub open spec fn at_least(self, other: ConverterVersion) -> bool {
        if self.major != other.major {
            self.major > other.major
        } else if self.minor != other.minor {
            self.minor > other.minor
        } else if self.patch != other.patch {
            self.patch > other.patch
        } else {
            self.num >= other.num
        }
    }

    /// The first version whose surfaces carry wide plane addresses.
    pub open spec fn first_with_wide_planes() -> ConverterVersion {
        ConverterVersion {
            major: WIDE_PLANES_MAJOR,
            minor: WIDE_PLANES_MINOR,
            patch: WIDE_PLANES_PATCH,
            num: WIDE_PLANES_NUM,
        }
    }

    /// Decides which form of surface the converter is to be given: the one
    /// with wide plane addresses from version 6.4.11:1049711 on, the older
    /// one before.
    pub fn has_wide_planes(&self) -> (wide: bool)
        ensures
            wide == self.at_least(ConverterVersion::first_with_wide_planes()),
    {
        if self.major != WIDE_PLANES_MAJOR {
            self.major > WIDE_PLANES_MAJOR
        } else if self.minor != WIDE_PLANES_MINOR {
            self.minor > WIDE_PLANES_MINOR
        } else if self.patch != WIDE_PLANES_PATCH {
            self.patch > WIDE_PLANES_PATCH
        } else {
            self.num >= WIDE_PLANES_NUM
        }
    }
}

/// Later versions stay later: the order of versions is transitive, and any
/// two versions are ordered one way or the other.
pub proof fn versions_are_ordered(a: ConverterVersion, b: ConverterVersion, c: ConverterVersion)
    ensures
        a.at_least(b) || b.at_least(a),
        a.at_least(b) && b.at_least(a) ==> a == b,
        a.at_least(b) && b.at_least(c) ==> a.at_least(c),
{
}

/// Bytes of a scratch buffer of `width` x `height` pixels with `channels`
/// bytes each; none where the count is beyond an `i32`.
pub fn buffer_bytes(width: i32, height: i32, channels: i32) -> (bytes: Option<i32>)
    ensures
        bytes is Some <==> i32::MIN <= width * height * channels <= i32::MAX,
        bytes matches Some(b) ==> b == width * height * channels,
{
    assert(-0x4000_0000_0000_0000 <= width * height <= 0x4000_0000_0000_0000) by (nonlinear_arith)
        requires
            -0x8000_0000 <= width <= 0x7fff_ffff,
            -0x8000_0000 <= height <= 0x7fff_ffff,
    ;
    let wide: i128 = (width as i128) * (height as i128);
    assert(-0x2000_0000_0000_0000_0000_0000 <= (width * height) * channels
        <= 0x2000_0000_0000_0000_0000_0000) by (nonlinear_arith)
        requires
            -0x4000_0000_0000_0000 <= width * height <= 0x4000_0000_0000_0000,
            -0x8000_0000 <= channels <= 0x7fff_ffff,
    ;
    let total: i128 = wide * (channels as i128);
    if total >= i32::MIN as i128 && total <= i32::MAX as i128 {
        Some(total as i32)
    } else {
        None
    }
}

} // verus!
