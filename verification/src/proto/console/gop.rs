//! Graphics output protocol.
//!
//! The UEFI GOP is meant to replace existing VGA hardware interfaces. It can
//! be used in the boot environment as well as at runtime, until a
//! high-performance driver is loaded by the OS.
//!
//! The GOP provides access to a hardware frame buffer and allows UEFI apps
//! to draw directly to the graphics output device.
//!
//! # Definitions
//!
//! All graphics operations use a coordinate system where the top-left of the
//! screen is mapped to the point (0, 0), and `y` increases going down.
//!
//! Rectangles are defined by their top-left corner, and their width and
//! height.
//!
//! The stride is understood as the length of a scan line / row of a buffer.
//!
//! # Blitting
//!
//! Blits (block transfers) copy rectangles between the frame buffer and
//! itself, or to and from a buffer of pixels, or fill a rectangle of the
//! frame buffer with a color. The source and destination rectangles always
//! have the same size. Before the firmware is asked to do one, every
//! rectangle is checked to lie within the buffer it refers to: this module
//! decides the checks and the arguments of the firmware's call.
use vstd::prelude::*;
use vstd::std_specs::convert::FromSpecImpl;

verus! {

/// Represents the format of the pixels in a frame buffer.
#[derive(Debug, Copy, Clone, Eq, PartialEq, Structural)]
pub enum PixelFormat {
    /// Each pixel is 32-bit long, with 24-bit RGB, and the last byte is reserved.
    Rgb,
    /// Each pixel is 32-bit long, with 24-bit BGR, and the last byte is reserved.
    Bgr,
    /// Custom pixel format, check the associated bitmask.
    Bitmask,
    /// The graphics mode does not support drawing directly to the frame buffer.
    ///
    /// This means you will have to use the `blt` function which will
    /// convert the graphics data to the device's internal pixel format.
    BltOnly,
}

/// Bitmask used to indicate which bits of a pixel represent a given color.
#[derive(Debug, Copy, Clone, Eq, PartialEq, Structural)]
pub struct PixelBitmask {
    /// The bits indicating the red channel.
    pub red: u32,
    /// The bits indicating the green channel.
    pub green: u32,
    /// The bits indicating the blue channel.
    pub blue: u32,
    /// The reserved bits, which are ignored by the video hardware.
    pub reserved: u32,
}

/// Information about a graphics output mode.
#[derive(Debug, Copy, Clone, PartialEq, Eq, Structural)]
pub struct ModeInfo {
    /// The version of the structure; the only known version is 0.
    pub version: u32,
    /// The horizontal resolution.
    pub hor_res: u32,
    /// The vertical resolution.
    pub ver_res: u32,
    /// The format of the frame buffer.
    pub format: PixelFormat,
    /// The bitmask of a custom pixel format.
    pub mask: PixelBitmask,
    /// The number of pixels per scanline.
    pub stride: u32,
}

impl ModeInfo {
    /// Returns the (horizontal, vertical) resolution.
    ///
    /// On desktop monitors, this usually means (width, height).
    pub fn resolution(&self) -> (r: (usize, usize))
        ensures
            r.0 == self.hor_res,
            r.1 == self.ver_res,
    {
        (self.hor_res as usize, self.ver_res as usize)
    }

    /// Returns the format of the frame buffer.
    pub fn pixel_format(&self) -> (r: PixelFormat)
        ensures
            r == self.format,
    {
        self.format
    }

    /// Returns the bitmask of the custom pixel format, if available.
    pub fn pixel_bitmask(&self) -> (r: Option<PixelBitmask>)
        ensures
            r == (if self.format == PixelFormat::Bitmask {
                Some(self.mask)
            } else {
                None
            }),
    {
        match self.format {
            PixelFormat::Bitmask => Some(self.mask),
            _ => None,
        }
    }

    /// Returns the number of pixels per scanline.
    ///
    /// Due to performance reasons, the stride might not be equal to the
    /// width, instead the stride might be bigger for better alignment.
    pub fn stride(&self) -> (r: usize)
        ensures
            r == self.stride,
    {
        self.stride as usize
    }
}

/// Represents a graphics mode compatible with a given graphics device.
#[derive(Debug, Copy, Clone)]
pub struct Mode {
    index: u32,
    info_sz: usize,
    info: ModeInfo,
}

impl Mode {
    /// The mode with the given index, and the information that the device
    /// gave about it, of the given size.
    pub fn new(index: u32, info_sz: usize, info: ModeInfo) -> (r: Mode)
        ensures
            r.spec_index() == index,
            r.spec_info_size() == info_sz,
            r.spec_info() == info,
    {
        Mode { index, info_sz, info }
    }

    /// The index of the mode.
    pub closed spec fn spec_index(&self) -> u32 {
        self.index
    }

    /// The size of the info structure in bytes.
    pub closed spec fn spec_info_size(&self) -> usize {
        self.info_sz
    }

    /// The mode info structure.
    pub closed spec fn spec_info(&self) -> ModeInfo {
        self.info
    }

    /// The index of the mode, as the device numbers it.
    pub fn index(&self) -> (r: u32)
        ensures
            r == self.spec_index(),
    {
        self.index
    }

    /// The size of the info structure in bytes.
    ///
    /// Newer versions of the spec might add extra information, in a backwards
    /// compatible way.
    pub fn info_size(&self) -> (r: usize)
        ensures
            r == self.spec_info_size(),
    {
        self.info_sz
    }

    /// Returns a reference to the mode info structure.
    pub fn info(&self) -> (r: &ModeInfo)
        ensures
            *r == self.spec_info(),
    {
        &self.info
    }
}

/// Format of pixel data used for blitting.
///
/// This is a BGR 24-bit format with an 8-bit padding, to keep each pixel
/// 32-bit in size.
#[allow(missing_docs)]
#[derive(Debug, Copy, Clone, PartialEq, Eq, Structural)]
pub struct BltPixel {
    pub blue: u8,
    pub green: u8,
    pub red: u8,
    /// Padding, always 0.
    pub reserved: u8,
}

impl BltPixel {
    /// Create a new pixel from RGB values.
    pub fn new(red: u8, green: u8, blue: u8) -> (r: Self)
        ensures
            r.red == red,
            r.green == green,
            r.blue == blue,
            r.reserved == 0,
    {
        BltPixel { red, green, blue, reserved: 0 }
    }
}

impl From<u32> for BltPixel {
    /// The color `0x00RRGGBB`; the top byte is ignored.
    fn from(color: u32) -> (r: Self)
        ensures
            r.blue == color % 0x100,
            r.green == (color / 0x100) % 0x100,
            r.red == (color / 0x1_0000) % 0x100,
            r.reserved == 0,
    {
        let blue = (color & 0x00_00_FF) as u8;
        let green = ((color & 0x00_FF_00) >> 8) as u8;
        let red = ((color & 0xFF_00_00) >> 16) as u8;
        proof {
            assert(color & 0x00_00_FF == color % 0x100) by (bit_vector);
            assert((color & 0x00_FF_00) >> 8 == (color / 0x100) % 0x100) by (bit_vector);
            assert((color & 0xFF_00_00) >> 16 == (color / 0x1_0000) % 0x100) by (bit_vector);
        }
        BltPixel { blue, green, red, reserved: 0 }
    }
}

impl FromSpecImpl<u32> for BltPixel {
    open spec fn obeys_from_spec() -> bool {
        true
    }

    closed spec fn from_spec(color: u32) -> BltPixel {
        BltPixel {
            blue: (color % 0x100) as u8,
            green: ((color / 0x100) % 0x100) as u8,
            red: ((color / 0x1_0000) % 0x100) as u8,
            reserved: 0,
        }
    }
}

/// Region of the `BltBuffer` which we are operating on
///
/// Some `Blt` operations can operate on either the full `BltBuffer` or a
/// sub-rectangle of it, but require the stride to be known in the latter
/// case.
#[derive(Clone, Copy, Debug)]
pub enum BltRegion {
    /// Operate on the full `BltBuffer`
    Full,
    /// Operate on a sub-rectangle of the `BltBuffer`
    SubRectangle {
        /// Coordinate of the rectangle in the `BltBuffer`
        coords: (usize, usize),
        /// Stride (length of each row of the `BltBuffer`) in **pixels**
        px_stride: usize,
    },
}

/// Blit operation to perform.
#[derive(Debug)]
pub enum BltOp<'buf> {
    /// Fills a rectangle of video display with a pixel color.
    VideoFill {
        /// The color to fill with.
        color: BltPixel,
        /// The X / Y coordinates of the destination rectangle.
        dest: (usize, usize),
        /// The width / height of the rectangle.
        dims: (usize, usize),
    },
    /// Reads data from the video display to the buffer.
    VideoToBltBuffer {
        /// Buffer into which to copy data.
        buffer: &'buf mut [BltPixel],
        /// Coordinates of the source rectangle, in the frame buffer.
        src: (usize, usize),
        /// Location of the destination rectangle in the user-provided buffer
        dest: BltRegion,
        /// Width / height of the rectangles.
        dims: (usize, usize),
    },
    /// Write data from the buffer to the video rectangle.
    /// Delta must be the stride (count of bytes in a row) of the buffer.
    BufferToVideo {
        /// Buffer from which to copy data.
        buffer: &'buf [BltPixel],
        /// Location of the source rectangle in the user-provided buffer.
        src: BltRegion,
        /// Coordinates of the destination rectangle, in the frame buffer.
        dest: (usize, usize),
        /// Width / height of the rectangles.
        dims: (usize, usize),
    },
    /// Copy from the source rectangle in video memory to
    /// the destination rectangle, also in video memory.
    VideoToVideo {
        /// Coordinates of the source rectangle, in the frame buffer.
        src: (usize, usize),
        /// Coordinates of the destination rectangle, also in the frame buffer.
        dest: (usize, usize),
        /// Width / height of the rectangles.
        dims: (usize, usize),
    },
}

/// The arguments of the firmware's block transfer function, apart from the
/// pixel buffer: the operation number (0 video fill, 1 video to buffer, 2
/// buffer to video, 3 video to video), the source and destination
/// coordinates, the size of the rectangle, and the buffer's row length in
/// bytes (0 for the whole buffer).
#[derive(Debug, Copy, Clone, PartialEq, Eq, Structural)]
pub struct BltCall {
    /// The operation number.
    pub operation: u32,
    /// The X coordinate of the source rectangle.
    pub source_x: usize,
    /// The Y coordinate of the source rectangle.
    pub source_y: usize,
    /// The X coordinate of the destination rectangle.
    pub dest_x: usize,
    /// The Y coordinate of the destination rectangle.
    pub dest_y: usize,
    /// The width of the rectangles.
    pub width: usize,
    /// The height of the rectangles.
    pub height: usize,
    /// The length of a row of the pixel buffer, in bytes.
    pub delta: usize,
}

/// `a * b`, or `usize::MAX` if that does not fit.
pub open spec fn saturating_mul(a: usize, b: usize) -> usize {
    if a * b > usize::MAX {
        usize::MAX
    } else {
        (a * b) as usize
    }
}

/// `a + b`, or `usize::MAX` if that does not fit.
pub open spec fn saturating_add(a: usize, b: usize) -> usize {
    if a + b > usize::MAX {
        usize::MAX
    } else {
        (a + b) as usize
    }
}

/// The rectangle at `coords` of size `dims` lies within a frame buffer of
/// the given resolution (sums saturate).
pub open spec fn framebuffer_region_ok(
    resolution: (usize, usize),
    coords: (usize, usize),
    dims: (usize, usize),
) -> bool {
    &&& saturating_add(coords.0, dims.0) <= resolution.0
    &&& saturating_add(coords.1, dims.1) <= resolution.1
}

/// The rectangle of size `dims` in `region` lies within a pixel buffer of
/// `buf_length` pixels (sums and products saturate).
pub open spec fn blt_buffer_region_ok(region: BltRegion, dims: (usize, usize), buf_length: usize) -> bool {
    match region {
        BltRegion::Full => saturating_mul(dims.1, dims.0) <= buf_length,
        BltRegion::SubRectangle { coords, px_stride } => {
            &&& saturating_add(coords.0, dims.0) <= px_stride
            &&& saturating_mul(saturating_add(coords.1, dims.1), px_stride) <= buf_length
        },
    }
}

/// The stride of a sub-rectangle region, in bytes, fits in a `usize`.
pub open spec fn region_stride_fits(region: BltRegion) -> bool {
    match region {
        BltRegion::Full => true,
        BltRegion::SubRectangle { px_stride, .. } => px_stride * 4 <= usize::MAX,
    }
}

/// The row length in bytes that the firmware is given for a buffer region.
pub open spec fn region_delta(region: BltRegion) -> usize {
    match region {
        BltRegion::Full => 0,
        BltRegion::SubRectangle { px_stride, .. } => (px_stride * 4) as usize,
    }
}

/// The coordinates in the buffer that the firmware is given for a buffer
/// region.
pub open spec fn region_coords(region: BltRegion) -> (usize, usize) {
    match region {
        BltRegion::Full => (0, 0),
        BltRegion::SubRectangle { coords, .. } => coords,
    }
}

/// The mode data of a graphics output device: the number of modes, the
/// current mode and its information, and where its frame buffer is.
#[derive(Debug)]
pub struct GraphicsOutput {
    /// Number of modes which the device supports.
    pub max_mode: u32,
    /// Current mode.
    pub mode: u32,
    /// Information about the current mode.
    pub info: ModeInfo,
    /// Size of the information structure.
    pub info_sz: usize,
    /// Physical address of the frame buffer.
    pub fb_address: u64,
    /// Size of the frame buffer in bytes.
    pub fb_size: usize,
}

impl GraphicsOutput {
    /// Every rectangle of `op` lies within the buffer it refers to, and a
    /// buffer's row length in bytes fits in a `usize`.
    pub open spec fn blt_ok(&self, op: &BltOp) -> bool {
        let res = (self.info.hor_res as usize, self.info.ver_res as usize);
        match *op {
            BltOp::VideoFill { dest, dims, .. } => framebuffer_region_ok(res, dest, dims),
            BltOp::VideoToBltBuffer { buffer, src, dest, dims } => {
                &&& framebuffer_region_ok(res, src, dims)
                &&& blt_buffer_region_ok(dest, dims, buffer@.len() as usize)
                &&& region_stride_fits(dest)
            },
            BltOp::BufferToVideo { buffer, src, dest, dims } => {
                &&& blt_buffer_region_ok(src, dims, buffer@.len() as usize)
                &&& framebuffer_region_ok(res, dest, dims)
                &&& region_stride_fits(src)
            },
            BltOp::VideoToVideo { src, dest, dims } => {
                &&& framebuffer_region_ok(res, src, dims)
                &&& framebuffer_region_ok(res, dest, dims)
            },
        }
    }

    /// The arguments of the firmware's block transfer for `op`.
    pub open spec fn spec_blt_call(op: &BltOp) -> BltCall {
        match *op {
            BltOp::VideoFill { dest, dims, .. } => BltCall {
                operation: 0,
                source_x: 0,
                source_y: 0,
                dest_x: dest.0,
                dest_y: dest.1,
                width: dims.0,
                height: dims.1,
                delta: 0,
            },
            BltOp::VideoToBltBuffer { src, dest, dims, .. } => BltCall {
                operation: 1,
                source_x: src.0,
                source_y: src.1,
                dest_x: region_coords(dest).0,
                dest_y: region_coords(dest).1,
                width: dims.0,
                height: dims.1,
                delta: region_delta(dest),
            },
            BltOp::BufferToVideo { src, dest, dims, .. } => BltCall {
                operation: 2,
                source_x: region_coords(src).0,
                source_y: region_coords(src).1,
                dest_x: dest.0,
                dest_y: dest.1,
                width: dims.0,
                height: dims.1,
                delta: region_delta(src),
            },
            BltOp::VideoToVideo { src, dest, dims } => BltCall {
                operation: 3,
                source_x: src.0,
                source_y: src.1,
                dest_x: dest.0,
                dest_y: dest.1,
                width: dims.0,
                height: dims.1,
                delta: 0,
            },
        }
    }

    /// Performs the checks of a blt (block transfer) operation on the frame
    /// buffer and gives the arguments of the firmware's call.
    ///
    /// Every operation requires different parameters; every rectangle must
    /// lie within the buffer it refers to.
    pub fn blt(&self, op: &BltOp) -> (r: BltCall)
        requires
            self.blt_ok(op),
        ensures
            r == Self::spec_blt_call(op),
    {
        match op {
            BltOp::VideoFill { color: _, dest: (dest_x, dest_y), dims: (width, height) } => {
                BltCall {
                    operation: 0,
                    source_x: 0,
                    source_y: 0,
                    dest_x: *dest_x,
                    dest_y: *dest_y,
                    width: *width,
                    height: *height,
                    delta: 0,
                }
            },
            BltOp::VideoToBltBuffer { buffer: _, src: (src_x, src_y), dest: dest_region, dims: (
                width,
                height,
            ) } => match dest_region {
                BltRegion::Full => BltCall {
                    operation: 1,
                    source_x: *src_x,
                    source_y: *src_y,
                    dest_x: 0,
                    dest_y: 0,
                    width: *width,
                    height: *height,
                    delta: 0,
                },
                BltRegion::SubRectangle { coords: (dest_x, dest_y), px_stride } => BltCall {
                    operation: 1,
                    source_x: *src_x,
                    source_y: *src_y,
                    dest_x: *dest_x,
                    dest_y: *dest_y,
                    width: *width,
                    height: *height,
                    delta: *px_stride * 4,
                },
            },
            BltOp::BufferToVideo { buffer: _, src: src_region, dest: (dest_x, dest_y), dims: (
                width,
                height,
            ) } => match src_region {
                BltRegion::Full => BltCall {
                    operation: 2,
                    source_x: 0,
                    source_y: 0,
                    dest_x: *dest_x,
                    dest_y: *dest_y,
                    width: *width,
                    height: *height,
                    delta: 0,
                },
                BltRegion::SubRectangle { coords: (src_x, src_y), px_stride } => BltCall {
                    operation: 2,
                    source_x: *src_x,
                    source_y: *src_y,
                    dest_x: *dest_x,
                    dest_y: *dest_y,
                    width: *width,
                    height: *height,
                    delta: *px_stride * 4,
                },
            },
            BltOp::VideoToVideo { src: (src_x, src_y), dest: (dest_x, dest_y), dims: (
                width,
                height,
            ) } => BltCall {
                operation: 3,
                source_x: *src_x,
                source_y: *src_y,
                dest_x: *dest_x,
                dest_y: *dest_y,
                width: *width,
                height: *height,
                delta: 0,
            },
        }
    }

    /// Whether every rectangle of `op` lies within the buffer it refers to,
    /// and the row length of a sub-rectangle region fits in bytes: the
    /// condition under which `blt` may be asked for the operation.
    pub fn blt_regions_ok(&self, op: &BltOp) -> (r: bool)
        ensures
            r == self.blt_ok(op),
    {
        let res = (self.info.hor_res as usize, self.info.ver_res as usize);
        match op {
            BltOp::VideoFill { dest, dims, .. } => region_in_frame(res, *dest, *dims),
            BltOp::VideoToBltBuffer { buffer, src, dest, dims } => {
                region_in_frame(res, *src, *dims) && region_in_buffer(*dest, *dims, buffer.len())
                    && stride_fits(*dest)
            },
            BltOp::BufferToVideo { buffer, src, dest, dims } => {
                region_in_buffer(*src, *dims, buffer.len()) && region_in_frame(res, *dest, *dims)
                    && stride_fits(*src)
            },
            BltOp::VideoToVideo { src, dest, dims } => {
                region_in_frame(res, *src, *dims) && region_in_frame(res, *dest, *dims)
            },
        }
    }

    /// Memory-safety check for accessing a region of the framebuffer: the
    /// rectangle at `coords` of size `dims` must lie within the screen
    /// (a region out of bounds is a programming error).
    pub fn check_framebuffer_region(&self, coords: (usize, usize), dims: (usize, usize))
        requires
            framebuffer_region_ok(
                (self.info.hor_res as usize, self.info.ver_res as usize),
                coords,
                dims,
            ),
    {
    }

    /// Memory-safety check for accessing a region of a user-provided buffer
    /// of `buf_length` pixels: the region must fit in the buffer (a region
    /// out of bounds is a programming error).
    pub fn check_blt_buffer_region(&self, region: BltRegion, dims: (usize, usize), buf_length: usize)
        requires
            blt_buffer_region_ok(region, dims, buf_length),
    {
    }

    /// Returns the frame buffer information for the current mode.
    pub fn current_mode_info(&self) -> (r: ModeInfo)
        ensures
            r == self.info,
    {
        self.info
    }

    /// Access the frame buffer directly. A mode that only supports blits
    /// has no frame buffer that can be accessed.
    pub fn frame_buffer(&mut self) -> (r: FrameBuffer)
        requires
            old(self).info.format != PixelFormat::BltOnly,
        ensures
            r.spec_base() == old(self).fb_address,
            r.spec_size() == old(self).fb_size,
            *final(self) == *old(self),
    {
        FrameBuffer { base: self.fb_address, size: self.fb_size }
    }
}

/// Direct access to a memory-mapped frame buffer.
#[derive(Debug)]
pub struct FrameBuffer {
    base: u64,
    size: usize,
}

impl FrameBuffer {
    /// The address of the frame buffer.
    pub closed spec fn spec_base(&self) -> u64 {
        self.base
    }

    /// The size of the frame buffer in bytes.
    pub closed spec fn spec_size(&self) -> usize {
        self.size
    }

    /// The physical address of the frame buffer, where a raw pointer to it
    /// is made.
    pub fn as_mut_ptr(&mut self) -> (r: u64)
        ensures
            r == old(self).spec_base(),
            *final(self) == *old(self),
    {
        self.base
    }

    /// Query the framebuffer size in bytes
    pub fn size(&self) -> (r: usize)
        ensures
            r == self.spec_size(),
    {
        self.size
    }
}

impl crate::proto::Identify for GraphicsOutput {
    open spec fn spec_guid() -> Seq<u8> {
        crate::data_types::guid::spec_guid_bytes(0x9042a9de, 0x23dc, 0x4a38, 0x96fb, 0x7aded080516a)
    }

    fn guid() -> (g: crate::data_types::Guid) {
        crate::data_types::Guid::from_values(0x9042a9de, 0x23dc, 0x4a38, 0x96fb, 0x7aded080516a)
    }
}

impl crate::proto::Protocol for GraphicsOutput {
}

/// `a * b`, or `usize::MAX` if that does not fit.
fn mul_saturating(a: usize, b: usize) -> (r: usize)
    ensures
        r == saturating_mul(a, b),
{
    match a.checked_mul(b) {
        Some(v) => v,
        None => usize::MAX,
    }
}

/// The rectangle at `coords` of size `dims` lies within the resolution.
fn region_in_frame(resolution: (usize, usize), coords: (usize, usize), dims: (usize, usize)) -> (r:
    bool)
    ensures
        r == framebuffer_region_ok(resolution, coords, dims),
{
    coords.0.saturating_add(dims.0) <= resolution.0 && coords.1.saturating_add(dims.1) <= resolution.1
}

/// The rectangle of size `dims` in `region` lies within a buffer of
/// `buf_length` pixels.
fn region_in_buffer(region: BltRegion, dims: (usize, usize), buf_length: usize) -> (r: bool)
    ensures
        r == blt_buffer_region_ok(region, dims, buf_length),
{
    match region {
        BltRegion::Full => mul_saturating(dims.1, dims.0) <= buf_length,
        BltRegion::SubRectangle { coords: (x, y), px_stride } => {
            x.saturating_add(dims.0) <= px_stride && mul_saturating(
                y.saturating_add(dims.1),
                px_stride,
            ) <= buf_length
        },
    }
}

/// The row length of a sub-rectangle region fits in bytes.
fn stride_fits(region: BltRegion) -> (r: bool)
    ensures
        r == region_stride_fits(region),
{
    match region {
        BltRegion::Full => true,
        BltRegion::SubRectangle { px_stride, .. } => px_stride <= usize::MAX / 4,
    }
}

/// The indices below `n` at which a query of a graphics mode succeeded, in
/// order.
pub open spec fn answered_mode_indices(queries: Seq<crate::result::Result<Mode>>, n: nat) -> Seq<int> {
    Seq::new(n, |j: int| j).filter(|j: int| queries[j] is Ok)
}

/// The graphics modes of a device, given what querying it about each mode
/// index, from 0 up to its number of modes, gave: the modes that the device
/// answered, in order of index; a query that failed is skipped.
pub fn supported_gop_modes(queries: &Vec<crate::result::Result<Mode>>) -> (r: Vec<Mode>)
    ensures
        r@.len() == answered_mode_indices(queries@, queries@.len()).len(),
        forall|k: int|
            0 <= k < r@.len() ==> {
                let i = #[trigger] answered_mode_indices(queries@, queries@.len())[k];
                &&& 0 <= i < queries@.len()
                &&& queries@[i] matches Ok(c)
                &&& r@[k] == c.spec_value()
            },
{
    let mut modes: Vec<Mode> = Vec::new();
    let mut i: usize = 0;
    proof {
        assert(answered_mode_indices(queries@, 0) =~= Seq::<int>::empty());
    }
    while i < queries.len()
        invariant
            i <= queries@.len(),
            modes@.len() == answered_mode_indices(queries@, i as nat).len(),
            forall|k: int|
                0 <= k < modes@.len() ==> {
                    let j = #[trigger] answered_mode_indices(queries@, i as nat)[k];
                    &&& 0 <= j < i
                    &&& queries@[j] matches Ok(c)
                    &&& modes@[k] == c.spec_value()
                },
        decreases queries@.len() - i,
    {
        let ghost ok = |j: int| queries@[j] is Ok;
        let ghost before = Seq::new(i as nat, |j: int| j);
        proof {
            assert(Seq::new((i + 1) as nat, |j: int| j) =~= before.push(i as int));
            before.lemma_filter_push(i as int, ok);
            assert(answered_mode_indices(queries@, (i + 1) as nat) == before.push(i as int).filter(ok));
            assert(answered_mode_indices(queries@, i as nat) == before.filter(ok));
        }
        match &queries[i] {
            Ok(crate::result::Completion::Success(m)) => {
                modes.push(*m);
            },
            Ok(crate::result::Completion::Warning(m, _)) => {
                modes.push(*m);
            },
            Err(_) => {},
        }
        i = i + 1;
    }
    modes
}

/// The firmware is told the row length of a sub-rectangle of the pixel
/// buffer in bytes: `px_stride` pixels of four bytes each, whichever way the
/// pixels go; the sub-rectangle's corner is the buffer-side corner of the
/// call. For the whole buffer the row length is 0 and the corner (0, 0).
/// Video fills and video-to-video copies use no buffer and pass 0.
pub proof fn lemma_blt_buffer_row_bytes(op: &BltOp)
    requires
        match *op {
            BltOp::VideoToBltBuffer { dest: BltRegion::SubRectangle { px_stride, .. }, .. } =>
                px_stride * 4 <= usize::MAX,
            BltOp::BufferToVideo { src: BltRegion::SubRectangle { px_stride, .. }, .. } =>
                px_stride * 4 <= usize::MAX,
            _ => true,
        },
    ensures
        match *op {
            BltOp::VideoFill { dest, dims, .. } => GraphicsOutput::spec_blt_call(op) == (BltCall {
                operation: 0,
                source_x: 0,
                source_y: 0,
                dest_x: dest.0,
                dest_y: dest.1,
                width: dims.0,
                height: dims.1,
                delta: 0,
            }),
            BltOp::VideoToBltBuffer { src, dest, dims, .. } => {
                &&& GraphicsOutput::spec_blt_call(op).operation == 1
                &&& GraphicsOutput::spec_blt_call(op).source_x == src.0
                &&& GraphicsOutput::spec_blt_call(op).source_y == src.1
                &&& GraphicsOutput::spec_blt_call(op).width == dims.0
                &&& GraphicsOutput::spec_blt_call(op).height == dims.1
                &&& match dest {
                    BltRegion::Full => {
                        &&& GraphicsOutput::spec_blt_call(op).dest_x == 0
                        &&& GraphicsOutput::spec_blt_call(op).dest_y == 0
                        &&& GraphicsOutput::spec_blt_call(op).delta == 0
                    },
                    BltRegion::SubRectangle { coords, px_stride } => {
                        &&& GraphicsOutput::spec_blt_call(op).dest_x == coords.0
                        &&& GraphicsOutput::spec_blt_call(op).dest_y == coords.1
                        &&& GraphicsOutput::spec_blt_call(op).delta == px_stride * 4
                    },
                }
            },
            BltOp::BufferToVideo { src, dest, dims, .. } => {
                &&& GraphicsOutput::spec_blt_call(op).operation == 2
                &&& GraphicsOutput::spec_blt_call(op).dest_x == dest.0
                &&& GraphicsOutput::spec_blt_call(op).dest_y == dest.1
                &&& GraphicsOutput::spec_blt_call(op).width == dims.0
                &&& GraphicsOutput::spec_blt_call(op).height == dims.1
                &&& match src {
                    BltRegion::Full => {
                        &&& GraphicsOutput::spec_blt_call(op).source_x == 0
                        &&& GraphicsOutput::spec_blt_call(op).source_y == 0
                        &&& GraphicsOutput::spec_blt_call(op).delta == 0
                    },
                    BltRegion::SubRectangle { coords, px_stride } => {
                        &&& GraphicsOutput::spec_blt_call(op).source_x == coords.0
                        &&& GraphicsOutput::spec_blt_call(op).source_y == coords.1
                        &&& GraphicsOutput::spec_blt_call(op).delta == px_stride * 4
                    },
                }
            },
            BltOp::VideoToVideo { src, dest, dims } => GraphicsOutput::spec_blt_call(op) == (BltCall {
                operation: 3,
                source_x: src.0,
                source_y: src.1,
                dest_x: dest.0,
                dest_y: dest.1,
                width: dims.0,
                height: dims.1,
                delta: 0,
            }),
        },
{
}

/// A rectangle lies within the screen when it ends at or before the screen's
/// right and bottom edges: its corner plus its size is at most the
/// resolution, counted without overflow (a resolution of `usize::MAX` takes
/// any rectangle, since the sums saturate there).
pub proof fn lemma_framebuffer_region_bounds(
    resolution: (usize, usize),
    coords: (usize, usize),
    dims: (usize, usize),
)
    ensures
        framebuffer_region_ok(resolution, coords, dims) <==> {
            &&& (coords.0 + dims.0 <= resolution.0 || resolution.0 == usize::MAX)
            &&& (coords.1 + dims.1 <= resolution.1 || resolution.1 == usize::MAX)
        },
{
}

/// A rectangle lies within a pixel buffer of `buf_length` pixels when the
/// whole buffer holds `width * height` pixels, or, for a sub-rectangle, when
/// it ends at or before the right edge of a row of `px_stride` pixels and
/// the rows down to its bottom edge fit in the buffer; products and sums
/// are counted without overflow (a bound of `usize::MAX` takes any value,
/// since the arithmetic saturates there).
pub proof fn lemma_blt_buffer_region_bounds(region: BltRegion, dims: (usize, usize), buf_length: usize)
    ensures
        blt_buffer_region_ok(region, dims, buf_length) <==> match region {
            BltRegion::Full => dims.0 * dims.1 <= buf_length || buf_length == usize::MAX,
            BltRegion::SubRectangle { coords, px_stride } => {
                &&& (coords.0 + dims.0 <= px_stride || px_stride == usize::MAX)
                &&& ((coords.1 + dims.1) * px_stride <= buf_length || buf_length == usize::MAX)
            },
        },
{
    match region {
        BltRegion::Full => {
            assert(dims.1 * dims.0 == dims.0 * dims.1) by (nonlinear_arith);
        },
        BltRegion::SubRectangle { coords, px_stride } => {
            let rows: int = coords.1 + dims.1;
            if rows > usize::MAX && px_stride >= 1 {
                assert(rows * px_stride >= rows) by (nonlinear_arith)
                    requires
                        rows > 0,
                        px_stride >= 1,
                ;
                assert(usize::MAX * px_stride >= usize::MAX) by (nonlinear_arith)
                    requires
                        px_stride >= 1,
                ;
            }
            if rows > usize::MAX && px_stride == 0 {
                assert(rows * px_stride == 0) by (nonlinear_arith)
                    requires
                        px_stride == 0,
                ;
                assert(usize::MAX * px_stride == 0) by (nonlinear_arith)
                    requires
                        px_stride == 0,
                ;
            }
        },
    }
}

} // verus!
