//! Messages that the sinks publish.
//!
//! A message is a header, made of the frame's capture time and a frame
//! identifier, and a body. It goes out as CDR, little-endian, which the
//! `cdr` crate produces from the message types of `edgefirst_schemas`. What
//! is decided here is what goes into each message.

use crate::frame::Stamp;
use crate::image::{Image, ImageView};
use crate::tile::TilePosition;
use vstd::prelude::*;
use vstd::string::StringExecFns;
use vstd::utf8::encode_utf8;

verus! {

/// Schema of the raw export.
pub const DMA_BUFFER_SCHEMA: &'static str = "edgefirst_msgs/msg/DmaBuffer";

/// Schema of a still image.
pub const COMPRESSED_IMAGE_SCHEMA: &'static str = "sensor_msgs/msg/CompressedImage";

/// Schema of a video frame.
pub const COMPRESSED_VIDEO_SCHEMA: &'static str = "foxglove_msgs/msg/CompressedVideo";

/// Room left for the fixed parts of a message when its size is checked.
pub const MESSAGE_OVERHEAD: usize = 64;

/// The little-endian CDR bytes, encapsulation included, of a
/// `sensor_msgs::CompressedImage` with these fields, as `cdr::serialize`
/// produces them.
pub uninterp spec fn compressed_image_cdr(
    sec: i32,
    nanosec: u32,
    frame_id: Seq<char>,
    format: Seq<char>,
    data: Seq<u8>,
) -> Seq<u8>;

/// The little-endian CDR bytes, encapsulation included, of a
/// `foxglove_msgs::FoxgloveCompressedVideo` with these fields, as
/// `cdr::serialize` produces them.
pub uninterp spec fn compressed_video_cdr(
    sec: i32,
    nanosec: u32,
    frame_id: Seq<char>,
    format: Seq<char>,
    data: Seq<u8>,
) -> Seq<u8>;

/// The little-endian CDR bytes, encapsulation included, of an
/// `edgefirst_msgs::DmaBuffer` with these fields, as `cdr::serialize`
/// produces them.
pub uninterp spec fn dma_buffer_cdr(
    sec: i32,
    nanosec: u32,
    frame_id: Seq<char>,
    pid: u32,
    fd: i32,
    width: u32,
    height: u32,
    stride: u32,
    fourcc: u32,
    length: u32,
) -> Seq<u8>;

/// What `str::to_lowercase` makes of a text.
pub uninterp spec fn lowercase_of(text: Seq<char>) -> Seq<char>;

/// Bytes that a text takes up: the length of its UTF-8 encoding, which is
/// what the length of a string counts.
pub open spec fn byte_len(text: Seq<char>) -> usize {
    encode_utf8(text).len() as usize
}

/// Whether a text and its terminator can be counted in the 32 bits that CDR
/// gives a length.
pub open spec fn text_fits(text: Seq<char>) -> bool {
    byte_len(text) < u32::MAX
}

/// Whether a message with these texts and `data` bytes of data can be
/// encoded: every length fits the 32 bits that CDR gives it.
pub open spec fn encodable(frame_id: Seq<char>, format: Seq<char>, data: nat) -> bool {
    text_fits(frame_id) && text_fits(format) && data <= u32::MAX
}

/// Whether a message with these texts and `data` bytes of data is small
/// enough for its buffer to be allocated: the sizes in bytes, with room for
/// the fixed parts, stay within `isize::MAX`.
pub open spec fn allocatable(frame_id: Seq<char>, format: Seq<char>, data: nat) -> bool {
    byte_len(frame_id) + byte_len(format) + data + MESSAGE_OVERHEAD <= isize::MAX
}

/// Calls `cdr::serialize` on a `sensor_msgs::CompressedImage` made of the
/// arguments.
///
/// The bytes that come back are a function of the fields alone, named by
/// [`compressed_image_cdr`]. The call fails exactly where a length does not
/// fit the 32 bits that CDR gives it: the length of the data, or that of a
/// text with its terminator. The output buffer is allocated up front, which
/// panics beyond `isize::MAX` bytes: such sizes are left out.
#[verifier::external_body]
fn serialize_compressed_image(
    sec: i32,
    nanosec: u32,
    frame_id: &str,
    format: &str,
    data: Vec<u8>,
) -> (bytes: Option<Vec<u8>>)
    requires
        allocatable(frame_id@, format@, data@.len()),
    ensures
        bytes is Some <==> encodable(frame_id@, format@, data@.len()),
        bytes matches Some(b) ==> b@ == compressed_image_cdr(
            sec,
            nanosec,
            frame_id@,
            format@,
            data@,
        ),
{
    let stamp = edgefirst_schemas::builtin_interfaces::Time { sec, nanosec };
    let header = edgefirst_schemas::std_msgs::Header { stamp, frame_id: frame_id.to_string() };
    let format = format.to_string();
    let msg = edgefirst_schemas::sensor_msgs::CompressedImage { header, format, data };
    cdr::serialize::<_, _, cdr::CdrLe>(&msg, cdr::Infinite).ok()
}

/// Calls `cdr::serialize` on a `foxglove_msgs::FoxgloveCompressedVideo` made
/// of the arguments.
///
/// The bytes that come back are a function of the fields alone, named by
/// [`compressed_video_cdr`]. The call fails exactly where a length does not
/// fit the 32 bits that CDR gives it: the length of the data, or that of a
/// text with its terminator. The output buffer is allocated up front, which
/// panics beyond `isize::MAX` bytes: such sizes are left out.
#[verifier::external_body]
fn serialize_compressed_video(
    sec: i32,
    nanosec: u32,
    frame_id: &str,
    format: &str,
    data: Vec<u8>,
) -> (bytes: Option<Vec<u8>>)
    requires
        allocatable(frame_id@, format@, data@.len()),
    ensures
        bytes is Some <==> encodable(frame_id@, format@, data@.len()),
        bytes matches Some(b) ==> b@ == compressed_video_cdr(
            sec,
            nanosec,
            frame_id@,
            format@,
            data@,
        ),
{
    let stamp = edgefirst_schemas::builtin_interfaces::Time { sec, nanosec };
    let header = edgefirst_schemas::std_msgs::Header { stamp, frame_id: frame_id.to_string() };
    let format = format.to_string();
    let msg = edgefirst_schemas::foxglove_msgs::FoxgloveCompressedVideo { header, data, format };
    cdr::serialize::<_, _, cdr::CdrLe>(&msg, cdr::Infinite).ok()
}

/// The body of the raw export: where the frame's buffer is to be found and
/// how it is laid out.
#[derive(Clone, Copy, Debug, PartialEq, Eq, Structural)]
pub struct DmaDescriptor {
    /// Process that owns the buffer.
    pub pid: u32,
    /// The buffer's file descriptor in that process.
    pub fd: i32,
    /// Width of the frame in pixels.
    pub width: u32,
    /// Height of the frame in pixels.
    pub height: u32,
    /// Stride of the frame.
    pub stride: u32,
    /// Pixel format code.
    pub fourcc: u32,
    /// Length of the buffer in bytes.
    pub length: u32,
}

/// Calls `cdr::serialize` on an `edgefirst_msgs::DmaBuffer` made of the
/// arguments.
///
/// The bytes that come back are a function of the fields alone, named by
/// [`dma_buffer_cdr`]. The call fails exactly where the length of the frame
/// identifier with its terminator does not fit the 32 bits that CDR gives
/// it. The output buffer is allocated up front, which panics beyond
/// `isize::MAX` bytes: such sizes are left out.
#[verifier::external_body]
fn serialize_dma_buffer(sec: i32, nanosec: u32, frame_id: &str, body: DmaDescriptor) -> (bytes:
    Option<Vec<u8>>)
    requires
        allocatable(frame_id@, Seq::<char>::empty(), 0),
    ensures
        bytes is Some <==> text_fits(frame_id@),
        bytes matches Some(b) ==> b@ == dma_buffer_cdr(
            sec,
            nanosec,
            frame_id@,
            body.pid,
            body.fd,
            body.width,
            body.height,
            body.stride,
            body.fourcc,
            body.length,
        ),
{
    let stamp = edgefirst_schemas::builtin_interfaces::Time { sec, nanosec };
    let header = edgefirst_schemas::std_msgs::Header { stamp, frame_id: frame_id.to_string() };
    let DmaDescriptor { pid, fd, width, height, stride, fourcc, length } = body;
    let msg = edgefirst_schemas::edgefirst_msgs::DmaBuffer {
        header, pid, fd, width, height, stride, fourcc, length,
    };
    cdr::serialize::<_, _, cdr::CdrLe>(&msg, cdr::Infinite).ok()
}

/// Calls `str::to_lowercase`, which returns the text with every character
/// replaced by its lowercase form. The result is named by [`lowercase_of`].
#[verifier::external_body]
fn to_lowercase(text: &str) -> (lower: String)
    ensures
        lower@ == lowercase_of(text@),
{
    text.to_lowercase()
}

/// Decides whether a message of these parts is small enough to be built.
fn fits(frame_id: &str, format: &str, data: usize) -> (small: bool)
    ensures
        small == allocatable(frame_id@, format@, data as nat),
{
    let limit: usize = isize::MAX as usize;
    match frame_id.len().checked_add(format.len()) {
        None => false,
        Some(texts) => match texts.checked_add(data) {
            None => false,
            Some(parts) => match parts.checked_add(MESSAGE_OVERHEAD) {
                None => false,
                Some(total) => total <= limit,
            },
        },
    }
}

/// The descriptor of a frame's buffer for the raw export. The stride is
/// given as the frame's width; the length is cut down to its low 32 bits.
pub open spec fn descriptor_of(image: ImageView, fd: i32, length: usize, pid: u32) -> DmaDescriptor {
    DmaDescriptor {
        pid,
        fd,
        width: image.width as u32,
        height: image.height as u32,
        stride: image.width as u32,
        fourcc: image.format,
        length: length as u32,
    }
}

/// Describes the buffer of a captured frame for the raw export.
pub fn describe(image: &Image, fd: i32, length: usize, pid: u32) -> (body: DmaDescriptor)
    ensures
        body == descriptor_of(image@, fd, length, pid),
{
    DmaDescriptor {
        pid,
        fd,
        width: image.width(),
        height: image.height(),
        stride: image.width(),
        fourcc: image.format(),
        length: #[verifier::truncate] (length as u32),
    }
}

/// Whether a message with these texts and `data` bytes of data can be
/// built: it can be encoded, and its buffer allocated.
pub open spec fn buildable(frame_id: Seq<char>, format: Seq<char>, data: nat) -> bool {
    encodable(frame_id, format, data) && allocatable(frame_id, format, data)
}

/// Builds the raw export of a captured frame: the message that tells other
/// processes where the frame's buffer is.
///
/// Returns the serialized message, or nothing where the frame identifier is
/// too long for one.
pub fn camera_dma_serialize(
    image: &Image,
    timestamp: &Stamp,
    fd: i32,
    length: usize,
    pid: u32,
    frame_id: &str,
) -> (message: Option<Vec<u8>>)
    ensures
        message is Some <==> buildable(frame_id@, Seq::<char>::empty(), 0),
        message matches Some(bytes) ==> {
            let body = descriptor_of(image@, fd, length, pid);
            bytes@ == dma_buffer_cdr(
                timestamp.seconds as i32,
                timestamp.nanos,
                frame_id@,
                body.pid,
                body.fd,
                body.width,
                body.height,
                body.stride,
                body.fourcc,
                body.length,
            )
        },
{
    proof {
        reveal_strlit("");
        assert(""@ =~= Seq::<char>::empty());
    }
    if !fits(frame_id, "", 0) {
        return None;
    }
    let (sec, nanosec) = timestamp.header_time();
    serialize_dma_buffer(sec, nanosec, frame_id, describe(image, fd, length, pid))
}

/// Builds the message of a still image from its JPEG data.
///
/// Returns the serialized message, or nothing where the data or the frame
/// identifier is too long for one.
pub fn build_jpeg_msg(jpeg: Vec<u8>, timestamp: &Stamp, frame_id: &str) -> (message: Option<
    Vec<u8>,
>)
    ensures
        message is Some <==> buildable(frame_id@, "jpeg"@, jpeg@.len()),
        message matches Some(bytes) ==> bytes@ == compressed_image_cdr(
            timestamp.seconds as i32,
            timestamp.nanos,
            frame_id@,
            "jpeg"@,
            jpeg@,
        ),
{
    if !fits(frame_id, "jpeg", jpeg.len()) {
        return None;
    }
    let (sec, nanosec) = timestamp.header_time();
    serialize_compressed_image(sec, nanosec, frame_id, "jpeg", jpeg)
}

/// Builds the message of a full-frame video frame from its H.264 data.
///
/// Returns the serialized message, or nothing where the data or the frame
/// identifier is too long for one.
pub fn build_video_msg(data: Vec<u8>, timestamp: &Stamp, frame_id: &str) -> (message: Option<
    Vec<u8>,
>)
    ensures
        message is Some <==> buildable(frame_id@, "h264"@, data@.len()),
        message matches Some(bytes) ==> bytes@ == compressed_video_cdr(
            timestamp.seconds as i32,
            timestamp.nanos,
            frame_id@,
            "h264"@,
            data@,
        ),
{
    if !fits(frame_id, "h264", data.len()) {
        return None;
    }
    let (sec, nanosec) = timestamp.header_time();
    serialize_compressed_video(sec, nanosec, frame_id, "h264", data)
}

/// The name of a tile position as it appears in frame identifiers, before
/// these are put in lowercase.
pub open spec fn position_name(position: TilePosition) -> Seq<char> {
    match position {
        TilePosition::TopLeft => "TopLeft"@,
        TilePosition::TopRight => "TopRight"@,
        TilePosition::BottomLeft => "BottomLeft"@,
        TilePosition::BottomRight => "BottomRight"@,
    }
}

/// The frame identifier of a tile: the camera's, an underscore and the name
/// of the tile's position, all in lowercase.
pub open spec fn tile_frame_id_of(camera_frame_id: Seq<char>, position: TilePosition) -> Seq<char> {
    lowercase_of(camera_frame_id + "_"@ + position_name(position))
}

/// Makes the frame identifier of a tile from the camera's.
pub fn tile_frame_id(camera_frame_id: &str, position: TilePosition) -> (frame_id: String)
    ensures
        frame_id@ == tile_frame_id_of(camera_frame_id@, position),
{
    let name = match position {
        TilePosition::TopLeft => "TopLeft",
        TilePosition::TopRight => "TopRight",
        TilePosition::BottomLeft => "BottomLeft",
        TilePosition::BottomRight => "BottomRight",
    };
    let mut text = String::from_str(camera_frame_id);
    text.append("_");
    text.append(name);
    to_lowercase(text.as_str())
}

/// Builds the message of a tile's video frame from its H.264 data. The
/// frame identifier is the tile's, see [`tile_frame_id_of`].
///
/// Returns the serialized message, or nothing where the data or the tile's
/// frame identifier is too long for one.
pub fn build_tile_video_msg(
    data: Vec<u8>,
    timestamp: &Stamp,
    camera_frame_id: &str,
    position: TilePosition,
) -> (message: Option<Vec<u8>>)
    ensures
        message is Some <==> buildable(
            tile_frame_id_of(camera_frame_id@, position),
            "h264"@,
            data@.len(),
        ),
        message matches Some(bytes) ==> bytes@ == compressed_video_cdr(
            timestamp.seconds as i32,
            timestamp.nanos,
            tile_frame_id_of(camera_frame_id@, position),
            "h264"@,
            data@,
        ),
{
    let frame_id = tile_frame_id(camera_frame_id, position);
    build_video_msg(data, timestamp, frame_id.as_str())
}

} // verus!
