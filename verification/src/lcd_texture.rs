//! Uploading the displays' frames to textures: which bytes go where.

use vstd::prelude::*;

use crate::jog_stream::{JOG_FB_H, JOG_FB_W};
use crate::main_stream::{DisplayDirty, DisplayPayload, SHM_PIXELS_OFFSET};

verus! {

/// Size of a pixel in bytes.
pub const PX_BYTES: usize = 4;

/// One of the channels of a pixel, or the greatest value.
#[derive(Clone, Copy, Debug, PartialEq, Eq, Structural)]
pub enum ChannelSource {
    Red,
    Green,
    Blue,
    Alpha,
    One,
}

/// Where each channel of a sampled pixel comes from.
#[derive(Clone, Copy, Debug, PartialEq, Eq, Structural)]
pub struct ChannelMap {
    pub red: ChannelSource,
    pub green: ChannelSource,
    pub blue: ChannelSource,
    pub alpha: ChannelSource,
}

/// How the bytes of a display's pixels are arranged.
#[derive(Clone, Copy, Debug, PartialEq, Eq, Structural)]
pub enum LcdSwizzle {
    /// Red, green, blue, and an unused byte.
    AlphaOnly,
    /// Blue, green, red, and an unused byte.
    BgrToRgbAlphaOne,
}

/// Where each channel of a sampled pixel comes from. The unused byte never shows.
pub fn channel_map(swizzle: LcdSwizzle) -> (r: ChannelMap)
    ensures
        r == (match swizzle {
            LcdSwizzle::AlphaOnly => ChannelMap {
                red: ChannelSource::Red,
                green: ChannelSource::Green,
                blue: ChannelSource::Blue,
                alpha: ChannelSource::One,
            },
            LcdSwizzle::BgrToRgbAlphaOne => ChannelMap {
                red: ChannelSource::Blue,
                green: ChannelSource::Green,
                blue: ChannelSource::Red,
                alpha: ChannelSource::One,
            },
        }),
{
    match swizzle {
        LcdSwizzle::AlphaOnly => ChannelMap {
            red: ChannelSource::Red,
            green: ChannelSource::Green,
            blue: ChannelSource::Blue,
            alpha: ChannelSource::One,
        },
        LcdSwizzle::BgrToRgbAlphaOne => ChannelMap {
            red: ChannelSource::Blue,
            green: ChannelSource::Green,
            blue: ChannelSource::Red,
            alpha: ChannelSource::One,
        },
    }
}

/// An upload: the rectangle of the texture, and the bytes of the source that go into it.
#[derive(Clone, Copy, Debug, PartialEq, Eq, Structural)]
pub struct UploadPlan {
    /// Pixels from the beginning of one row of the source to that of the next.
    pub row_length_px: u32,
    pub x: u32,
    pub y: u32,
    pub w: u32,
    pub h: u32,
    /// Where the bytes begin in the source.
    pub offset: usize,
    /// How many bytes there are.
    pub len: usize,
}

/// The bytes from the first pixel of a rectangle to its last one.
pub open spec fn span(row_bytes: int, w: int, h: int) -> int {
    (h - 1) * row_bytes + w * PX_BYTES
}

/// The upload of a rectangle of the jog display. The source is the whole canvas.
pub fn jog_upload(x: u16, y: u16, w: u16, h: u16) -> (r: UploadPlan)
    requires
        h > 0,
        x + w <= JOG_FB_W,
        y + h <= JOG_FB_H,
    ensures
        r.row_length_px == JOG_FB_W,
        r.x == x && r.y == y && r.w == w && r.h == h,
        r.offset == (y * JOG_FB_W + x) * PX_BYTES,
        r.len == span((JOG_FB_W * PX_BYTES) as int, w as int, h as int),
        r.offset + r.len <= JOG_FB_W * JOG_FB_H * PX_BYTES,
{
    let row_bytes: usize = JOG_FB_W * PX_BYTES;
    let offset: usize = y as usize * row_bytes + x as usize * PX_BYTES;
    let len: usize = (h as usize - 1) * row_bytes + w as usize * PX_BYTES;
    UploadPlan {
        row_length_px: 320,
        x: x as u32,
        y: y as u32,
        w: w as u32,
        h: h as u32,
        offset,
        len,
    }
}

/// Where the pixels of a notification begin in their source, which is the mapping for a
/// mapped payload and the packed rows for an owned one.
pub open spec fn display_offset(d: DisplayDirty) -> int {
    match d.payload {
        DisplayPayload::Mapped => SHM_PIXELS_OFFSET + d.y * d.stride + d.x * PX_BYTES,
        DisplayPayload::Owned(_) => 0,
    }
}

/// How many bytes the source of a notification has. `mapping_len` is the length of the
/// mapping.
pub open spec fn source_len(d: DisplayDirty, mapping_len: usize) -> int {
    match d.payload {
        DisplayPayload::Mapped => mapping_len as int,
        DisplayPayload::Owned(pixels) => pixels@.len() as int,
    }
}

/// A notification has pixels, and its source holds all of them.
pub open spec fn is_uploadable(d: DisplayDirty, mapping_len: usize) -> bool {
    &&& d.w > 0 && d.h > 0
    &&& display_offset(d) + span(d.stride as int, d.w as int, d.h as int) <= source_len(
        d,
        mapping_len,
    )
}

/// The upload of a notification of the main display; none where its source does not hold
/// its pixels.
pub fn display_upload(d: &DisplayDirty, mapping_len: usize) -> (r: Option<UploadPlan>)
    ensures
        r is Some <==> is_uploadable(*d, mapping_len),
        r matches Some(plan) ==> {
            &&& plan.row_length_px == d.stride / 4
            &&& plan.x == d.x && plan.y == d.y && plan.w == d.w && plan.h == d.h
            &&& plan.offset == display_offset(*d)
            &&& plan.len == span(d.stride as int, d.w as int, d.h as int)
        },
{
    if d.w == 0 || d.h == 0 {
        return None;
    }
    let stride: u128 = d.stride as u128;
    proof {
        lemma_products(d.y as int, d.stride as int);
        lemma_products(d.h - 1, d.stride as int);
    }
    let len: u128 = (d.h as u128 - 1) * stride + d.w as u128 * 4;
    let (offset, available): (u128, usize) = match &d.payload {
        DisplayPayload::Mapped => (
            SHM_PIXELS_OFFSET as u128 + d.y as u128 * stride + d.x as u128 * 4,
            mapping_len,
        ),
        DisplayPayload::Owned(pixels) => (0, pixels.len()),
    };
    if offset + len > available as u128 {
        return None;
    }
    Some(
        UploadPlan {
            row_length_px: d.stride / 4,
            x: d.x,
            y: d.y,
            w: d.w,
            h: d.h,
            offset: offset as usize,
            len: len as usize,
        },
    )
}

proof fn lemma_products(a: int, b: int)
    requires
        0 <= a <= u32::MAX,
        0 <= b <= u32::MAX,
    ensures
        0 <= a * b <= u32::MAX * u32::MAX,
{
    assert(0 <= a * b <= u32::MAX * u32::MAX) by (nonlinear_arith)
        requires
            0 <= a <= u32::MAX,
            0 <= b <= u32::MAX,
    ;
}

/// Every pixel of an uploaded rectangle is read from inside the bytes that are handed over,
/// where the rows of the source are at least as long as the rectangle's.
pub proof fn uploads_stay_inside_their_source(row_bytes: int, w: int, h: int, i: int, j: int)
    requires
        0 <= i < w,
        0 <= j < h,
        w * PX_BYTES <= row_bytes,
    ensures
        0 <= j * row_bytes + i * PX_BYTES,
        j * row_bytes + i * PX_BYTES + PX_BYTES <= span(row_bytes, w, h),
{
    assert(0 <= j * row_bytes && j * row_bytes <= (h - 1) * row_bytes) by (nonlinear_arith)
        requires
            0 <= j < h,
            0 <= row_bytes,
    ;
}

/// In the mapping, the pixels follow 64 bytes of header: the pixel in column `i` and row `j`
/// of a rectangle is where the display's own pixel in column `x + i` and row `y + j` is. Rows
/// that were packed begin with the rectangle.
pub proof fn uploads_begin_at_their_pixel(d: DisplayDirty, i: int, j: int)
    ensures
        d.payload is Mapped ==> display_offset(d) + j * d.stride + i * 4 == 64 + (d.y + j)
            * d.stride + (d.x + i) * 4,
        d.payload is Owned ==> display_offset(d) == 0,
{
    assert((d.y + j) * d.stride == d.y * d.stride + j * d.stride) by (nonlinear_arith);
}

/// What is handed over ends with the last pixel of the rectangle, which has four bytes. So
/// there is an upload exactly where there are pixels and the last one is in the source.
pub proof fn uploads_end_with_their_last_pixel(
    d: DisplayDirty,
    mapping_len: usize,
    row_bytes: int,
    w: int,
    h: int,
)
    ensures
        span(row_bytes, w, h) == (h - 1) * row_bytes + (w - 1) * 4 + 4,
        is_uploadable(d, mapping_len) <==> {
            &&& d.w >= 1
            &&& d.h >= 1
            &&& display_offset(d) + (d.h - 1) * d.stride + (d.w - 1) * 4 + 4 <= (match d.payload {
                DisplayPayload::Mapped => mapping_len as int,
                DisplayPayload::Owned(pixels) => pixels@.len() as int,
            })
        },
{
}

} // verus!
