//! The main display: reading published regions from QEMU's shared file.
//!
//! Layout of the file:
//!
//!   [0]   u32  magic       0x514D5348
//!   [4]   u32  generation  publication counter (protocol depends on mode)
//!   [8]   u32  width
//!   [12]  u32  height
//!   [16]  u32  stride      bytes per row
//!   [20]  u32  format      1 = RGBA8888
//!   [24]  u32  dirty_x
//!   [28]  u32  dirty_y
//!   [32]  u32  dirty_w
//!   [36]  u32  dirty_h
//!   [64]  u8[] pixels      stride x height bytes
//!
//! One writer increments `generation` once after each completed blit. The other
//! uses odd values while writing and even values for stable frames.
//! [`MainDisplayMode`] keeps those contracts apart.

use vstd::prelude::*;

use crate::control_gate::LaunchEpoch;
use crate::text;
use crate::text::path_below;

verus! {

pub const LCD_W: usize = 1280;

pub const LCD_H: usize = 720;

pub const SHM_MAGIC: u32 = 0x514D_5348;

pub const SHM_FORMAT_RGBA8888: u32 = 1;

/// Byte offset where pixel data begins in the shared file.
pub const SHM_PIXELS_OFFSET: usize = 64;

/// Publication and ownership policy for the main display.
#[derive(Clone, Copy, Debug, Eq, PartialEq, Structural)]
pub enum MainDisplayMode {
    /// Every changed generation is published, and the UI uploads directly from
    /// the live mapping.
    LegacyPublishedGeneration,
    /// Odd means writing; an unchanged, nonzero even generation is copied into
    /// owned memory before publication.
    SequencedStableSnapshot,
}

pub const DEFAULT_MAIN_DISPLAY_MODE: MainDisplayMode = MainDisplayMode::LegacyPublishedGeneration;

impl Default for MainDisplayMode {
    fn default() -> (r: Self)
        ensures
            r == MainDisplayMode::LegacyPublishedGeneration,
    {
        MainDisplayMode::LegacyPublishedGeneration
    }
}

/// Pixel storage of a dirty-region notification.
#[derive(Clone, Debug)]
pub enum DisplayPayload {
    /// The pixels stay in the live mapping.
    Mapped,
    /// Stable, tightly packed RGBA rows.
    Owned(Vec<u8>),
}

/// A dirty-region notification.
#[derive(Clone, Debug)]
pub struct DisplayDirty {
    pub x: u32,
    pub y: u32,
    pub w: u32,
    pub h: u32,
    /// Row stride in bytes: the surface's for a mapped payload, `w * 4` for an
    /// owned one.
    pub stride: u32,
    pub payload: DisplayPayload,
}

/// The 32-bit little-endian number at `offset`.
pub open spec fn u32_at(map: Seq<u8>, offset: int) -> u32 {
    (map[offset] + map[offset + 1] * 0x100 + map[offset + 2] * 0x1_0000 + map[offset + 3]
        * 0x100_0000) as u32
}

/// Reads a 32-bit little-endian number.
pub fn read_u32(map: &[u8], offset: usize) -> (r: u32)
    requires
        offset + 4 <= map@.len(),
    ensures
        r == u32_at(map@, offset as int),
{
    map[offset] as u32 + map[offset + 1] as u32 * 0x100 + map[offset + 2] as u32 * 0x1_0000
        + map[offset + 3] as u32 * 0x100_0000
}

/// A mapping that holds a display: long enough for a header, and with the magic.
pub open spec fn holds_display(map: Seq<u8>) -> bool {
    map.len() >= SHM_PIXELS_OFFSET && u32_at(map, 0) == SHM_MAGIC
}

/// Whether a mapping holds a display.
pub fn is_display(map: &[u8]) -> (r: bool)
    ensures
        r == holds_display(map@),
{
    map.len() >= SHM_PIXELS_OFFSET && read_u32(map, 0) == SHM_MAGIC
}

/// The shared file of the main display.
pub fn main_shm_file(socket_dir: &str) -> (r: String)
    ensures
        r@ == text::file_below(socket_dir@, "main.shm"@),
{
    path_below(socket_dir, "main.shm")
}

/// Whether a fresh mapping may be used: the launch did not change while the file
/// was being mapped. The mapping then belongs to that launch.
pub fn mapping_is_current(before: Option<LaunchEpoch>, after: Option<LaunchEpoch>) -> (r: bool)
    ensures
        r == (before == after),
{
    match (before, after) {
        (Some(b), Some(a)) => b == a,
        (None, None) => true,
        _ => false,
    }
}

/// The header of the shared file.
#[derive(Clone, Copy, Debug, PartialEq, Eq, Structural)]
pub struct FrameHeader {
    pub magic: u32,
    pub generation: u32,
    pub width: u32,
    pub height: u32,
    pub stride: u32,
    pub format: u32,
    pub dirty_x: u32,
    pub dirty_y: u32,
    pub dirty_w: u32,
    pub dirty_h: u32,
}

/// Reads the header.
pub fn read_header(map: &[u8]) -> (r: FrameHeader)
    requires
        map@.len() >= SHM_PIXELS_OFFSET,
    ensures
        r == (FrameHeader {
            magic: u32_at(map@, 0),
            generation: u32_at(map@, 4),
            width: u32_at(map@, 8),
            height: u32_at(map@, 12),
            stride: u32_at(map@, 16),
            format: u32_at(map@, 20),
            dirty_x: u32_at(map@, 24),
            dirty_y: u32_at(map@, 28),
            dirty_w: u32_at(map@, 32),
            dirty_h: u32_at(map@, 36),
        }),
{
    FrameHeader {
        magic: read_u32(map, 0),
        generation: read_u32(map, 4),
        width: read_u32(map, 8),
        height: read_u32(map, 12),
        stride: read_u32(map, 16),
        format: read_u32(map, 20),
        dirty_x: read_u32(map, 24),
        dirty_y: read_u32(map, 28),
        dirty_w: read_u32(map, 32),
        dirty_h: read_u32(map, 36),
    }
}

/// A generation that is not being written, seen twice.
pub open spec fn stable(expected: u32, observed: u32) -> bool {
    expected != 0 && expected % 2 == 0 && observed == expected
}

/// Whether a generation is not being written and was seen twice.
pub fn generation_is_stable(expected: u32, observed: u32) -> (r: bool)
    ensures
        r == stable(expected, observed),
{
    expected != 0 && expected % 2 == 0 && observed == expected
}

/// A publication that was observed.
#[derive(Clone, Copy, Debug, Eq, PartialEq, Structural)]
pub struct GenerationEvent {
    /// The publication counts as a frame at once, and not only when it reaches
    /// the UI.
    pub count_immediately: bool,
}

/// Follows the generation counter.
#[derive(Clone, Copy, Debug, Eq, PartialEq, Structural)]
pub struct GenerationTracker {
    pub mode: MainDisplayMode,
    pub last: u32,
}

/// A generation that is news to a reader that saw `last`.
pub open spec fn is_publication(mode: MainDisplayMode, last: u32, generation: u32) -> bool {
    generation != last && (mode == MainDisplayMode::SequencedStableSnapshot ==> stable(
        generation,
        generation,
    ))
}

impl GenerationTracker {
    /// A tracker for a mapping whose generation is `initial`. In legacy mode the
    /// next generation is awaited; in sequenced mode the initial one counts if it
    /// is stable, since the writer may have published its only full frame before.
    pub fn new(mode: MainDisplayMode, initial: u32) -> (r: Self)
        ensures
            r.mode == mode,
            mode == MainDisplayMode::LegacyPublishedGeneration ==> r.last == initial,
            mode == MainDisplayMode::SequencedStableSnapshot ==> r.last == (if initial == 0 {
                u32::MAX
            } else {
                (initial - 1) as u32
            }),
    {
        let last: u32 = match mode {
            MainDisplayMode::LegacyPublishedGeneration => initial,
            MainDisplayMode::SequencedStableSnapshot => initial.wrapping_sub(1),
        };
        GenerationTracker { mode, last }
    }

    /// Takes in the current generation.
    pub fn observe(&mut self, generation: u32) -> (r: Option<GenerationEvent>)
        ensures
            final(self).mode == old(self).mode,
            is_publication(old(self).mode, old(self).last, generation) ==> final(self).last
                == generation && r == Some(
                GenerationEvent {
                    count_immediately: old(self).mode == MainDisplayMode::LegacyPublishedGeneration,
                },
            ),
            !is_publication(old(self).mode, old(self).last, generation) ==> final(self).last == old(
                self,
            ).last && r is None,
    {
        if generation == self.last {
            return None;
        }
        if self.mode == MainDisplayMode::SequencedStableSnapshot && !generation_is_stable(
            generation,
            generation,
        ) {
            return None;
        }
        self.last = generation;
        Some(
            GenerationEvent {
                count_immediately: self.mode == MainDisplayMode::LegacyPublishedGeneration,
            },
        )
    }
}

/// A rectangle from `(x0, y0)` up to but not including `(x1, y1)`.
pub open spec fn covers(acc: (usize, usize, usize, usize), x: int, y: int) -> bool {
    acc.0 <= x < acc.2 && acc.1 <= y < acc.3
}

/// The smallest rectangle around what was accumulated and a new rectangle.
pub open spec fn union_of(
    acc: Option<(usize, usize, usize, usize)>,
    x0: usize,
    y0: usize,
    x1: usize,
    y1: usize,
) -> (usize, usize, usize, usize) {
    match acc {
        None => (x0, y0, x1, y1),
        Some((ax0, ay0, ax1, ay1)) => (
            if ax0 <= x0 { ax0 } else { x0 },
            if ay0 <= y0 { ay0 } else { y0 },
            if ax1 >= x1 { ax1 } else { x1 },
            if ay1 >= y1 { ay1 } else { y1 },
        ),
    }
}

/// Extends the accumulated rectangle by a new one. A rectangle whose end does not
/// fit the address range is refused.
pub fn accumulate_dirty(
    acc: Option<(usize, usize, usize, usize)>,
    x: usize,
    y: usize,
    width: usize,
    height: usize,
) -> (r: Option<(usize, usize, usize, usize)>)
    ensures
        r is Some <==> x + width <= usize::MAX && y + height <= usize::MAX,
        r matches Some(u) ==> u == union_of(acc, x, y, (x + width) as usize, (y + height) as usize),
{
    let x1: usize = match x.checked_add(width) {
        Some(v) => v,
        None => {
            return None;
        },
    };
    let y1: usize = match y.checked_add(height) {
        Some(v) => v,
        None => {
            return None;
        },
    };
    match acc {
        None => Some((x, y, x1, y1)),
        Some((ax0, ay0, ax1, ay1)) => Some(
            (
                if ax0 <= x { ax0 } else { x },
                if ay0 <= y { ay0 } else { y },
                if ax1 >= x1 { ax1 } else { x1 },
                if ay1 >= y1 { ay1 } else { y1 },
            ),
        ),
    }
}

/// A surface that lies within the mapping and whose rows do not overlap. The
/// legacy reader does not look at the format.
pub open spec fn frame_fits(
    mode: MainDisplayMode,
    width: int,
    height: int,
    stride: int,
    format: u32,
    map_len: int,
) -> bool {
    &&& width != 0
    &&& height != 0
    &&& mode == MainDisplayMode::LegacyPublishedGeneration || format == SHM_FORMAT_RGBA8888
    &&& stride >= width * 4
    &&& SHM_PIXELS_OFFSET + stride * height <= map_len
}

/// Whether a surface lies within the mapping.
pub fn valid_frame(
    mode: MainDisplayMode,
    width: usize,
    height: usize,
    stride: usize,
    format: u32,
    map_len: usize,
) -> (r: bool)
    ensures
        r == frame_fits(
            mode,
            width as int,
            height as int,
            stride as int,
            format,
            map_len as int,
        ),
{
    let row_bytes: usize = match width.checked_mul(4) {
        Some(v) => v,
        None => {
            return false;
        },
    };
    let pixel_bytes: usize = match stride.checked_mul(height) {
        Some(v) => v,
        None => {
            return false;
        },
    };
    let frame_end: usize = match SHM_PIXELS_OFFSET.checked_add(pixel_bytes) {
        Some(v) => v,
        None => {
            return false;
        },
    };
    width != 0 && height != 0 && (mode == MainDisplayMode::LegacyPublishedGeneration || format
        == SHM_FORMAT_RGBA8888) && stride >= row_bytes && frame_end <= map_len
}

/// A rectangle that is not empty, lies within the surface and within the mapping,
/// and whose packed form fits the address range.
pub open spec fn rect_fits(
    map_len: int,
    x: int,
    y: int,
    width: int,
    height: int,
    stride: int,
    surface_width: int,
    surface_height: int,
) -> bool {
    &&& width != 0
    &&& height != 0
    &&& x + width <= surface_width
    &&& y + height <= surface_height
    &&& width * 4 * height <= usize::MAX
    &&& SHM_PIXELS_OFFSET + (y + height - 1) * stride + x * 4 + width * 4 <= map_len
}

/// The bytes of row `row` of a rectangle.
pub open spec fn rect_row(map: Seq<u8>, x: int, y: int, width: int, stride: int, row: int) -> Seq<
    u8,
> {
    let start = SHM_PIXELS_OFFSET + (y + row) * stride + x * 4;
    map.subrange(start, start + width * 4)
}

/// The first `rows` rows of a rectangle, one directly after the other.
pub open spec fn packed_rows(
    map: Seq<u8>,
    x: int,
    y: int,
    width: int,
    stride: int,
    rows: int,
) -> Seq<u8>
    decreases rows,
{
    if rows <= 0 {
        Seq::empty()
    } else {
        packed_rows(map, x, y, width, stride, rows - 1) + rect_row(
            map,
            x,
            y,
            width,
            stride,
            rows - 1,
        )
    }
}

/// What the re-read generation decides on a copy: it is kept if the generation is
/// stable.
pub fn keep_if_stable(copy: Option<Vec<u8>>, generation: u32, observed: u32) -> (r: Option<Vec<u8>>)
    ensures
        stable(generation, observed) ==> r == copy,
        !stable(generation, observed) ==> r is None,
{
    if generation_is_stable(generation, observed) {
        copy
    } else {
        None
    }
}

proof fn lemma_row_end(y: int, height: int, stride: int, row: int)
    requires
        0 <= row < height,
        0 <= stride,
        0 <= y,
    ensures
        0 <= (y + row) * stride <= (y + height - 1) * stride,
{
    assert(0 <= (y + row) * stride <= (y + height - 1) * stride) by (nonlinear_arith)
        requires
            0 <= row < height,
            0 <= stride,
            0 <= y,
    ;
}

/// Copies a rectangle, its rows packed tightly.
pub fn copy_rect(
    map: &[u8],
    x: usize,
    y: usize,
    width: usize,
    height: usize,
    stride: usize,
    surface_width: usize,
    surface_height: usize,
) -> (r: Option<Vec<u8>>)
    ensures
        r is Some <==> rect_fits(
            map@.len() as int,
            x as int,
            y as int,
            width as int,
            height as int,
            stride as int,
            surface_width as int,
            surface_height as int,
        ),
        r matches Some(pixels) ==> pixels@ == packed_rows(
            map@,
            x as int,
            y as int,
            width as int,
            stride as int,
            height as int,
        ),
{
    if width == 0 || height == 0 {
        return None;
    }
    match x.checked_add(width) {
        Some(end) if end <= surface_width => {},
        _ => {
            return None;
        },
    }
    match y.checked_add(height) {
        Some(end) if end <= surface_height => {},
        _ => {
            return None;
        },
    }
    let row_bytes: usize = match width.checked_mul(4) {
        Some(v) => v,
        None => {
            proof {
                assert(width * 4 * height >= width * 4) by (nonlinear_arith)
                    requires
                        height >= 1,
                        width >= 0,
                ;
            }
            return None;
        },
    };
    let total_bytes: usize = match row_bytes.checked_mul(height) {
        Some(v) => v,
        None => {
            return None;
        },
    };
    let map_len: usize = map.len();
    let mut pixels: Vec<u8> = Vec::with_capacity(total_bytes);
    let mut row: usize = 0;
    while row < height
        invariant
            0 <= row <= height,
            height > 0,
            row_bytes == width * 4,
            x + width <= surface_width,
            y + height <= surface_height <= usize::MAX,
            width * 4 * height <= usize::MAX,
            width != 0,
            map_len == map@.len(),
            row > 0 ==> SHM_PIXELS_OFFSET + (y + row - 1) * stride + x * 4 + width * 4 <= map_len,
            pixels@ == packed_rows(
                map@,
                x as int,
                y as int,
                width as int,
                stride as int,
                row as int,
            ),
        decreases height - row,
    {
        let start: Option<usize> = row_start(x, y, stride, row);
        let end: Option<usize> = match start {
            Some(s) => s.checked_add(row_bytes),
            None => None,
        };
        proof {
            lemma_row_end(y as int, height as int, stride as int, row as int);
        }
        let (from, to): (usize, usize) = match (start, end) {
            (Some(s), Some(e)) => (s, e),
            _ => {
                return None;
            },
        };
        if to > map_len {
            return None;
        }
        pixels.extend_from_slice(vstd::slice::slice_subrange(map, from, to));
        row = row + 1;
    }
    Some(pixels)
}

/// Where a row of a rectangle begins in the file, if that fits the address range.
fn row_start(x: usize, y: usize, stride: usize, row: usize) -> (r: Option<usize>)
    requires
        y + row <= usize::MAX,
    ensures
        r is Some <==> SHM_PIXELS_OFFSET + (y + row) * stride + x * 4 <= usize::MAX,
        r matches Some(s) ==> s == SHM_PIXELS_OFFSET + (y + row) * stride + x * 4,
{
    proof {
        assert((y + row) * stride >= 0) by (nonlinear_arith)
            requires
                y >= 0,
                row >= 0,
                stride >= 0,
        ;
    }
    let rows: usize = match (y + row).checked_mul(stride) {
        Some(v) => v,
        None => {
            return None;
        },
    };
    let columns: usize = match x.checked_mul(4) {
        Some(v) => v,
        None => {
            return None;
        },
    };
    match SHM_PIXELS_OFFSET.checked_add(rows) {
        Some(v) => v.checked_add(columns),
        None => None,
    }
}

/// Copies a rectangle of a stable frame, its rows packed tightly. The generation in
/// the header has to be the expected one, and not being written.
pub fn copy_stable_rect(
    map: &[u8],
    generation: u32,
    x: usize,
    y: usize,
    width: usize,
    height: usize,
    stride: usize,
    surface_width: usize,
    surface_height: usize,
) -> (r: Option<Vec<u8>>)
    requires
        map@.len() >= SHM_PIXELS_OFFSET,
    ensures
        r is Some <==> stable(generation, u32_at(map@, 4)) && rect_fits(
            map@.len() as int,
            x as int,
            y as int,
            width as int,
            height as int,
            stride as int,
            surface_width as int,
            surface_height as int,
        ),
        r matches Some(pixels) ==> pixels@ == packed_rows(
            map@,
            x as int,
            y as int,
            width as int,
            stride as int,
            height as int,
        ),
{
    let copy = copy_rect(map, x, y, width, height, stride, surface_width, surface_height);
    keep_if_stable(copy, generation, read_u32(map, 4))
}

fn fits_u32(n: usize) -> (r: bool)
    ensures
        r == (n <= u32::MAX),
{
    n as u64 <= u32::MAX as u64
}

/// Makes a notification for a region. A mapped payload keeps the surface's stride,
/// an owned one has a stride of its own; `copy` is what was copied of a stable
/// frame, and is looked at in sequenced mode only.
pub fn make_display_dirty(
    mode: MainDisplayMode,
    copy: Option<Vec<u8>>,
    x: usize,
    y: usize,
    width: usize,
    height: usize,
    stride: usize,
) -> (r: Option<DisplayDirty>)
    ensures
        r is Some <==> x <= u32::MAX && y <= u32::MAX && width <= u32::MAX && height <= u32::MAX
            && published_stride(mode, width as int, stride as int) <= u32::MAX && (mode
            == MainDisplayMode::SequencedStableSnapshot ==> copy is Some),
        r matches Some(d) ==> {
            &&& d.x == x && d.y == y && d.w == width && d.h == height
            &&& d.stride == published_stride(mode, width as int, stride as int)
            &&& mode == MainDisplayMode::LegacyPublishedGeneration ==> d.payload is Mapped
            &&& mode == MainDisplayMode::SequencedStableSnapshot ==> d.payload
                == DisplayPayload::Owned(copy->0)
        },
{
    if !fits_u32(x) || !fits_u32(y) || !fits_u32(width) || !fits_u32(height) {
        return None;
    }
    match mode {
        MainDisplayMode::LegacyPublishedGeneration => {
            if !fits_u32(stride) {
                return None;
            }
            Some(
                DisplayDirty {
                    x: x as u32,
                    y: y as u32,
                    w: width as u32,
                    h: height as u32,
                    stride: stride as u32,
                    payload: DisplayPayload::Mapped,
                },
            )
        },
        MainDisplayMode::SequencedStableSnapshot => {
            if width as u64 * 4 > u32::MAX as u64 {
                return None;
            }
            match copy {
                Some(pixels) => Some(
                    DisplayDirty {
                        x: x as u32,
                        y: y as u32,
                        w: width as u32,
                        h: height as u32,
                        stride: (width as u64 * 4) as u32,
                        payload: DisplayPayload::Owned(pixels),
                    },
                ),
                None => None,
            }
        },
    }
}

/// The stride of a notification.
pub open spec fn published_stride(mode: MainDisplayMode, width: int, stride: int) -> int {
    match mode {
        MainDisplayMode::LegacyPublishedGeneration => stride,
        MainDisplayMode::SequencedStableSnapshot => width * 4,
    }
}

/// Makes a notification for a region of a mapping that does not change.
pub fn build_display_dirty(
    map: &[u8],
    mode: MainDisplayMode,
    generation: u32,
    x: usize,
    y: usize,
    width: usize,
    height: usize,
    stride: usize,
    surface_width: usize,
    surface_height: usize,
) -> (r: Option<DisplayDirty>)
    requires
        map@.len() >= SHM_PIXELS_OFFSET,
    ensures
        r is Some <==> x <= u32::MAX && y <= u32::MAX && width <= u32::MAX && height <= u32::MAX
            && published_stride(mode, width as int, stride as int) <= u32::MAX && (mode
            == MainDisplayMode::SequencedStableSnapshot ==> stable(generation, u32_at(map@, 4))
            && rect_fits(
            map@.len() as int,
            x as int,
            y as int,
            width as int,
            height as int,
            stride as int,
            surface_width as int,
            surface_height as int,
        )),
        r matches Some(d) ==> {
            &&& d.x == x && d.y == y && d.w == width && d.h == height
            &&& d.stride == published_stride(mode, width as int, stride as int)
            &&& match d.payload {
                DisplayPayload::Mapped => mode == MainDisplayMode::LegacyPublishedGeneration,
                DisplayPayload::Owned(pixels) => mode == MainDisplayMode::SequencedStableSnapshot
                    && pixels@ == packed_rows(
                    map@,
                    x as int,
                    y as int,
                    width as int,
                    stride as int,
                    height as int,
                ),
            }
        },
{
    let copy = match mode {
        MainDisplayMode::LegacyPublishedGeneration => None,
        MainDisplayMode::SequencedStableSnapshot => copy_stable_rect(
            map,
            generation,
            x,
            y,
            width,
            height,
            stride,
            surface_width,
            surface_height,
        ),
    };
    make_display_dirty(mode, copy, x, y, width, height, stride)
}

/// The packed form of a rectangle holds the rectangle's pixels row by row: byte `b`
/// of row `row` is the byte that stands there in the surface.
pub proof fn packed_rows_are_tight(
    map: Seq<u8>,
    x: int,
    y: int,
    width: int,
    stride: int,
    rows: int,
)
    requires
        0 <= x,
        0 <= y,
        0 <= width,
        0 <= stride,
        0 <= rows,
        rows > 0 ==> SHM_PIXELS_OFFSET + (y + rows - 1) * stride + x * 4 + width * 4 <= map.len(),
    ensures
        packed_rows(map, x, y, width, stride, rows).len() == rows * (width * 4),
        forall|row: int, b: int|
            0 <= row < rows && 0 <= b < width * 4 ==> #[trigger] packed_rows(
                map,
                x,
                y,
                width,
                stride,
                rows,
            )[row * (width * 4) + b] == map[SHM_PIXELS_OFFSET + (y + row) * stride + x * 4 + b],
    decreases rows,
{
    if rows > 0 {
        let rb = width * 4;
        lemma_row_end(y, rows, stride, rows - 1);
        if rows > 1 {
            lemma_row_end(y, rows, stride, rows - 2);
        }
        packed_rows_are_tight(map, x, y, width, stride, rows - 1);
        let before = packed_rows(map, x, y, width, stride, rows - 1);
        let last = rect_row(map, x, y, width, stride, rows - 1);
        assert(last.len() == rb);
        assert((rows - 1) * rb + rb == rows * rb) by (nonlinear_arith);
        assert forall|row: int, b: int| 0 <= row < rows && 0 <= b < rb implies #[trigger] (
        packed_rows(map, x, y, width, stride, rows)[row * rb + b]) == map[SHM_PIXELS_OFFSET + (y
            + row) * stride + x * 4 + b] by {
            if row < rows - 1 {
                assert(row * rb + b < (rows - 1) * rb) by (nonlinear_arith)
                    requires
                        0 <= row < rows - 1,
                        0 <= b < rb,
                ;
                assert(0 <= row * rb + b) by (nonlinear_arith)
                    requires
                        0 <= row,
                        0 <= b < rb,
                ;
                assert(packed_rows(map, x, y, width, stride, rows)[row * rb + b] == before[row * rb
                    + b]);
            } else {
                assert(packed_rows(map, x, y, width, stride, rows)[row * rb + b] == last[b]);
            }
        }
    } else {
        assert(rows * (width * 4) == 0) by (nonlinear_arith)
            requires
                rows == 0,
        ;
    }
}

/// A region that is due for publication.
#[derive(Clone, Copy, Debug, PartialEq, Eq, Structural)]
pub struct Region {
    pub generation: u32,
    pub x: usize,
    pub y: usize,
    pub w: usize,
    pub h: usize,
    pub stride: usize,
    pub surface_width: usize,
    pub surface_height: usize,
}

/// What a look at the shared file amounts to.
#[derive(Clone, Copy, Debug, PartialEq, Eq, Structural)]
pub enum Poll {
    /// The magic is gone: QEMU has exited or restarted.
    Lost,
    /// There is nothing to publish.
    Idle,
    /// The region is to be published, once the UI has taken the last one.
    Publish(Region),
}

/// Follows one mapping of the shared file.
#[derive(Clone, Copy, Debug)]
pub struct FramePoller {
    pub tracker: GenerationTracker,
    /// The union of all dirty rectangles since the last publication, as
    /// `(x0, y0, x1, y1)`. A UI that is busy so misses no intermediate update.
    pub acc: Option<(usize, usize, usize, usize)>,
    /// The surface that `acc` refers to.
    pub last_w: usize,
    pub last_h: usize,
    /// Nothing has been published yet.
    pub first_frame: bool,
}

/// The dirty rectangle of a header is not empty and lies within the surface.
pub open spec fn dirty_is_valid(h: FrameHeader) -> bool {
    h.dirty_w != 0 && h.dirty_h != 0 && h.dirty_x + h.dirty_w <= h.width && h.dirty_y + h.dirty_h
        <= h.height
}

impl FramePoller {
    /// What was accumulated is not empty and lies within the surface.
    pub open spec fn wf(&self) -> bool {
        self.acc matches Some((x0, y0, x1, y1)) ==> x0 < x1 <= self.last_w && y0 < y1
            <= self.last_h
    }

    /// The header announces a frame that this reader has not seen.
    pub open spec fn sees_frame(&self, h: FrameHeader, map_len: int) -> bool {
        h.magic == SHM_MAGIC && is_publication(self.tracker.mode, self.tracker.last, h.generation)
            && frame_fits(
            self.tracker.mode,
            h.width as int,
            h.height as int,
            h.stride as int,
            h.format,
            map_len,
        )
    }

    /// The surface is not the one that was seen last.
    pub open spec fn surface_changed(&self, h: FrameHeader) -> bool {
        h.width != self.last_w || h.height != self.last_h
    }

    /// The whole surface counts as dirty: in sequenced mode, for the first
    /// publication and after a change of the surface.
    pub open spec fn is_full(&self, h: FrameHeader) -> bool {
        self.tracker.mode == MainDisplayMode::SequencedStableSnapshot && (self.first_frame
            || self.surface_changed(h))
    }

    /// The rectangles that were accumulated for the surface of a header.
    pub open spec fn carried(&self, h: FrameHeader) -> Option<(usize, usize, usize, usize)> {
        if self.surface_changed(h) {
            None
        } else {
            self.acc
        }
    }

    /// What is accumulated after a frame. A frame without a valid dirty rectangle
    /// adds nothing.
    pub open spec fn accumulated(&self, h: FrameHeader) -> Option<(usize, usize, usize, usize)> {
        if self.is_full(h) {
            Some(union_of(self.carried(h), 0, 0, h.width as usize, h.height as usize))
        } else if dirty_is_valid(h) {
            Some(
                union_of(
                    self.carried(h),
                    h.dirty_x as usize,
                    h.dirty_y as usize,
                    (h.dirty_x + h.dirty_w) as usize,
                    (h.dirty_y + h.dirty_h) as usize,
                ),
            )
        } else {
            self.carried(h)
        }
    }

    /// A reader that begins at a mapping whose generation is `initial`.
    pub open spec fn at_start(mode: MainDisplayMode, initial: u32) -> FramePoller {
        FramePoller {
            tracker: GenerationTracker {
                mode,
                last: if mode == MainDisplayMode::LegacyPublishedGeneration {
                    initial
                } else if initial == 0 {
                    u32::MAX
                } else {
                    (initial - 1) as u32
                },
            },
            acc: None,
            last_w: 0,
            last_h: 0,
            first_frame: true,
        }
    }

    /// The reader after a region reached the UI or did not.
    pub open spec fn after_delivery(&self, delivered: bool) -> FramePoller {
        if delivered {
            FramePoller { acc: None, first_frame: false, ..*self }
        } else {
            *self
        }
    }

    /// The reader after a look at a header.
    pub open spec fn after_poll(&self, h: FrameHeader, map_len: int) -> FramePoller {
        let seen = h.magic == SHM_MAGIC && is_publication(
            self.tracker.mode,
            self.tracker.last,
            h.generation,
        );
        let p = FramePoller {
            tracker: GenerationTracker {
                last: if seen {
                    h.generation
                } else {
                    self.tracker.last
                },
                ..self.tracker
            },
            ..*self
        };
        if self.sees_frame(h, map_len) {
            FramePoller {
                acc: self.accumulated(h),
                last_w: h.width as usize,
                last_h: h.height as usize,
                ..p
            }
        } else {
            p
        }
    }

    /// What a look at a header amounts to.
    pub open spec fn poll_result(&self, h: FrameHeader, map_len: int) -> Poll {
        if h.magic != SHM_MAGIC {
            Poll::Lost
        } else if self.sees_frame(h, map_len) && (self.is_full(h) || dirty_is_valid(h)) {
            let acc = self.accumulated(h)->0;
            Poll::Publish(
                Region {
                    generation: h.generation,
                    x: acc.0,
                    y: acc.1,
                    w: (acc.2 - acc.0) as usize,
                    h: (acc.3 - acc.1) as usize,
                    stride: h.stride as usize,
                    surface_width: h.width as usize,
                    surface_height: h.height as usize,
                },
            )
        } else {
            Poll::Idle
        }
    }

    /// A look at a header counts as a frame.
    pub open spec fn poll_counts(&self, h: FrameHeader) -> bool {
        h.magic == SHM_MAGIC && self.tracker.mode == MainDisplayMode::LegacyPublishedGeneration
            && h.generation != self.tracker.last
    }

    /// A reader of a mapping whose generation is `initial`.
    pub fn new(mode: MainDisplayMode, initial: u32) -> (r: Self)
        ensures
            r.wf(),
            r == Self::at_start(mode, initial),
            r.tracker.mode == mode,
            r.tracker.last == (if mode == MainDisplayMode::LegacyPublishedGeneration {
                initial
            } else if initial == 0 {
                u32::MAX
            } else {
                (initial - 1) as u32
            }),
            r.acc is None && r.last_w == 0 && r.last_h == 0 && r.first_frame,
    {
        FramePoller {
            tracker: GenerationTracker::new(mode, initial),
            acc: None,
            last_w: 0,
            last_h: 0,
            first_frame: true,
        }
    }

    /// Looks at the header. The second result says whether a frame counts now.
    pub fn poll(&mut self, h: FrameHeader, map_len: usize) -> (r: (Poll, bool))
        requires
            old(self).wf(),
        ensures
            final(self).wf(),
            *final(self) == old(self).after_poll(h, map_len as int),
            r.0 == old(self).poll_result(h, map_len as int),
            r.1 == old(self).poll_counts(h),
            final(self).first_frame == old(self).first_frame,
            final(self).tracker.mode == old(self).tracker.mode,
            (r.0 is Lost) == (h.magic != SHM_MAGIC),
            r.1 == (h.magic == SHM_MAGIC && old(self).tracker.mode
                == MainDisplayMode::LegacyPublishedGeneration && h.generation != old(
                self,
            ).tracker.last),
            final(self).tracker.last == (if h.magic == SHM_MAGIC && is_publication(
                old(self).tracker.mode,
                old(self).tracker.last,
                h.generation,
            ) {
                h.generation
            } else {
                old(self).tracker.last
            }),
            !old(self).sees_frame(h, map_len as int) ==> !(r.0 is Publish) && final(self).acc
                == old(self).acc && final(self).last_w == old(self).last_w && final(self).last_h
                == old(self).last_h,
            old(self).sees_frame(h, map_len as int) ==> {
                &&& final(self).last_w == h.width && final(self).last_h == h.height
                &&& final(self).acc == old(self).accumulated(h)
                &&& (r.0 is Publish) == (old(self).is_full(h) || dirty_is_valid(h))
            },
            r.0 matches Poll::Publish(region) ==> {
                &&& final(self).acc == Some(
                    (
                        region.x,
                        region.y,
                        (region.x + region.w) as usize,
                        (region.y + region.h) as usize,
                    ),
                )
                &&& region.x + region.w <= h.width && region.y + region.h <= h.height
                &&& region.generation == h.generation && region.stride == h.stride
                &&& region.surface_width == h.width && region.surface_height == h.height
            },
    {
        if h.magic != SHM_MAGIC {
            return (Poll::Lost, false);
        }
        let event = match self.tracker.observe(h.generation) {
            Some(e) => e,
            None => {
                return (Poll::Idle, false);
            },
        };
        let counted = event.count_immediately;
        let width: usize = h.width as usize;
        let height: usize = h.height as usize;
        let stride: usize = h.stride as usize;
        if !valid_frame(self.tracker.mode, width, height, stride, h.format, map_len) {
            return (Poll::Idle, counted);
        }
        let changed = width != self.last_w || height != self.last_h;
        if changed {
            self.acc = None;
            self.last_w = width;
            self.last_h = height;
        }
        let valid = h.dirty_w != 0 && h.dirty_h != 0 && h.dirty_x as u64 + h.dirty_w as u64
            <= h.width as u64 && h.dirty_y as u64 + h.dirty_h as u64 <= h.height as u64;
        let full = self.tracker.mode == MainDisplayMode::SequencedStableSnapshot && (
        self.first_frame || changed);
        if !valid && !full {
            return (Poll::Idle, counted);
        }
        let (dx, dy, dw, dh): (usize, usize, usize, usize) = if full {
            (0, 0, width, height)
        } else {
            (h.dirty_x as usize, h.dirty_y as usize, h.dirty_w as usize, h.dirty_h as usize)
        };
        self.acc = accumulate_dirty(self.acc, dx, dy, dw, dh);
        match self.acc {
            Some((x0, y0, x1, y1)) => {
                let region = Region {
                    generation: h.generation,
                    x: x0,
                    y: y0,
                    w: x1 - x0,
                    h: y1 - y0,
                    stride,
                    surface_width: width,
                    surface_height: height,
                };
                (Poll::Publish(region), counted)
            },
            None => (Poll::Idle, counted),
        }
    }

    /// Takes in whether the region reached the UI, and says whether a frame counts
    /// now. A region that did not is kept for the next time.
    pub fn published(&mut self, delivered: bool) -> (r: bool)
        requires
            old(self).wf(),
        ensures
            final(self).wf(),
            *final(self) == old(self).after_delivery(delivered),
            r == (delivered && old(self).tracker.mode == MainDisplayMode::SequencedStableSnapshot),
            delivered ==> *final(self) == (FramePoller {
                acc: None,
                first_frame: false,
                ..*old(self)
            }),
            !delivered ==> *final(self) == *old(self),
    {
        if delivered {
            self.acc = None;
            self.first_frame = false;
        }
        delivered && self.tracker.mode == MainDisplayMode::SequencedStableSnapshot
    }
}

/// Nothing that was dirty is lost: on one surface, what is accumulated after a frame
/// covers what was accumulated before and, if the frame has a valid dirty rectangle,
/// that rectangle.
pub proof fn dirty_regions_accumulate(p: FramePoller, h: FrameHeader, x: int, y: int)
    requires
        !p.surface_changed(h),
        ({
            ||| p.acc is Some && covers(p.acc->0, x, y)
            ||| dirty_is_valid(h) && h.dirty_x <= x < h.dirty_x + h.dirty_w && h.dirty_y <= y
                < h.dirty_y + h.dirty_h
        }),
        p.wf(),
    ensures
        p.accumulated(h) is Some,
        covers(p.accumulated(h)->0, x, y),
{
}

/// In sequenced mode the first publication, and the first one after a change of the
/// surface, is the whole surface.
pub proof fn sequenced_reader_starts_with_a_full_frame(p: FramePoller, h: FrameHeader)
    requires
        p.tracker.mode == MainDisplayMode::SequencedStableSnapshot,
        p.first_frame || p.surface_changed(h),
        p.wf(),
    ensures
        p.accumulated(h) == Some((0usize, 0usize, h.width as usize, h.height as usize)),
{
}

/// A surface lies in a mapping: behind the 64 bytes of the header, with rows that hold its
/// pixels of four bytes each.
pub open spec fn surface_is_mapped(h: FrameHeader, map_len: int) -> bool {
    h.width > 0 && h.height > 0 && h.stride >= 4 * h.width && 64 + h.stride * h.height <= map_len
}

/// The point belongs to the region.
pub open spec fn region_covers(r: Region, x: int, y: int) -> bool {
    r.x <= x < r.x + r.w && r.y <= y < r.y + r.h
}

/// A legacy reader publishes every new frame whose dirty rectangle is not empty and lies in
/// the surface, up to its edges: the region covers the rectangle, and reaches no further than
/// the surface. On the surface that it saw last it also covers what it did not deliver.
pub proof fn dirty_rectangles_are_published(
    p: FramePoller,
    h: FrameHeader,
    map_len: int,
    x: int,
    y: int,
)
    requires
        p.wf(),
        p.tracker.mode == MainDisplayMode::LegacyPublishedGeneration,
        h.magic == 0x514D_5348,
        h.generation != p.tracker.last,
        surface_is_mapped(h, map_len),
        h.dirty_w > 0,
        h.dirty_h > 0,
        h.dirty_x + h.dirty_w <= h.width,
        h.dirty_y + h.dirty_h <= h.height,
    ensures
        ({
            let r = p.poll_result(h, map_len)->Publish_0;
            &&& p.poll_result(h, map_len) is Publish
            &&& p.poll_counts(h)
            &&& r.generation == h.generation && r.stride == h.stride
            &&& r.surface_width == h.width && r.surface_height == h.height
            &&& r.w > 0 && r.h > 0 && r.x + r.w <= h.width && r.y + r.h <= h.height
            &&& h.dirty_x <= x < h.dirty_x + h.dirty_w && h.dirty_y <= y < h.dirty_y + h.dirty_h
                ==> region_covers(r, x, y)
            &&& p.acc matches Some((x0, y0, x1, y1)) ==> p.last_w == h.width && p.last_h == h.height
                && x0 <= x < x1 && y0 <= y < y1 ==> region_covers(r, x, y)
            &&& p.acc is None || p.last_w != h.width || p.last_h != h.height ==> r.x == h.dirty_x
                && r.y == h.dirty_y && r.w == h.dirty_w && r.h == h.dirty_h
            &&& p.after_poll(h, map_len).tracker.last == h.generation
        }),
{
    assert(frame_fits(
        p.tracker.mode,
        h.width as int,
        h.height as int,
        h.stride as int,
        h.format,
        map_len,
    ));
}

/// A sequenced reader publishes every new frame that is not being written, in RGBA: the first
/// one and the first one of another surface as a whole, the others where they are dirty.
pub proof fn stable_frames_are_published(p: FramePoller, h: FrameHeader, map_len: int)
    requires
        p.wf(),
        p.tracker.mode == MainDisplayMode::SequencedStableSnapshot,
        h.magic == 0x514D_5348,
        h.generation != p.tracker.last,
        h.generation != 0,
        h.generation % 2 == 0,
        h.format == 1,
        surface_is_mapped(h, map_len),
    ensures
        p.first_frame || p.last_w != h.width || p.last_h != h.height ==> p.poll_result(h, map_len)
            == Poll::Publish(
            Region {
                generation: h.generation,
                x: 0,
                y: 0,
                w: h.width as usize,
                h: h.height as usize,
                stride: h.stride as usize,
                surface_width: h.width as usize,
                surface_height: h.height as usize,
            },
        ),
        h.dirty_w > 0 && h.dirty_h > 0 && h.dirty_x + h.dirty_w <= h.width && h.dirty_y + h.dirty_h
            <= h.height ==> (p.poll_result(h, map_len) matches Poll::Publish(r) && r.x <= h.dirty_x
            && r.y <= h.dirty_y && h.dirty_x + h.dirty_w <= r.x + r.w && h.dirty_y + h.dirty_h
            <= r.y + r.h),
        !p.poll_counts(h),
        p.after_poll(h, map_len).tracker.last == h.generation,
{
    assert(frame_fits(
        p.tracker.mode,
        h.width as int,
        h.height as int,
        h.stride as int,
        h.format,
        map_len,
    ));
}

/// A reader stays idle exactly where there is nothing to publish, and reports a mapping as
/// lost exactly where its magic is gone. It never publishes a frame of a surface that does not
/// lie in the mapping, nor in sequenced mode one that is being written.
pub proof fn readers_are_idle_without_news(p: FramePoller, h: FrameHeader, map_len: int)
    requires
        p.wf(),
    ensures
        p.poll_result(h, map_len) is Lost <==> h.magic != 0x514D_5348,
        h.generation == p.tracker.last ==> !(p.poll_result(h, map_len) is Publish),
        !surface_is_mapped(h, map_len) ==> !(p.poll_result(h, map_len) is Publish),
        p.tracker.mode == MainDisplayMode::SequencedStableSnapshot && (h.generation % 2 == 1
            || h.generation == 0 || h.format != 1) ==> !(p.poll_result(h, map_len) is Publish),
        p.tracker.mode == MainDisplayMode::LegacyPublishedGeneration && (h.dirty_w == 0 || h.dirty_h
            == 0 || h.dirty_x + h.dirty_w > h.width || h.dirty_y + h.dirty_h > h.height)
            ==> !(p.poll_result(h, map_len) is Publish),
        p.poll_counts(h) <==> h.magic == 0x514D_5348 && p.tracker.mode
            == MainDisplayMode::LegacyPublishedGeneration && h.generation != p.tracker.last,
{
}

/// A legacy reader waits for a generation other than the one that it began with. A sequenced
/// reader takes that one in as a whole, if it is not being written: the writer may have
/// published its only full frame before.
pub proof fn readers_begin_with_the_mapping(h: FrameHeader, map_len: int)
    requires
        h.magic == 0x514D_5348,
        h.format == 1,
        surface_is_mapped(h, map_len),
    ensures
        FramePoller::at_start(
            MainDisplayMode::LegacyPublishedGeneration,
            h.generation,
        ).poll_result(h, map_len) is Idle,
        h.generation != 0 && h.generation % 2 == 0 ==> FramePoller::at_start(
            MainDisplayMode::SequencedStableSnapshot,
            h.generation,
        ).poll_result(h, map_len) == Poll::Publish(
            Region {
                generation: h.generation,
                x: 0,
                y: 0,
                w: h.width as usize,
                h: h.height as usize,
                stride: h.stride as usize,
                surface_width: h.width as usize,
                surface_height: h.height as usize,
            },
        ),
{
    assert(frame_fits(
        MainDisplayMode::SequencedStableSnapshot,
        h.width as int,
        h.height as int,
        h.stride as int,
        h.format,
        map_len,
    ));
}

/// A region that did not reach the UI is part of the next publication on the same surface,
/// and one that did is not published again: the next publication is the next dirty rectangle.
pub proof fn regions_are_published_until_delivered(
    p: FramePoller,
    first: FrameHeader,
    second: FrameHeader,
    map_len: int,
    x: int,
    y: int,
)
    requires
        p.wf(),
        p.poll_result(first, map_len) is Publish,
        second.width == first.width,
        second.height == first.height,
    ensures
        ({
            let region = p.poll_result(first, map_len)->Publish_0;
            let kept = p.after_poll(first, map_len).after_delivery(false);
            let gone = p.after_poll(first, map_len).after_delivery(true);
            &&& kept.poll_result(second, map_len) matches Poll::Publish(next) ==> region_covers(
                region,
                x,
                y,
            ) ==> region_covers(next, x, y)
            &&& gone.poll_result(second, map_len) matches Poll::Publish(next) ==> next.x
                == second.dirty_x && next.y == second.dirty_y && next.w == second.dirty_w && next.h
                == second.dirty_h
        }),
{
}

/// The fields of the header are numbers of four bytes, the lowest first.
pub proof fn header_fields_are_little_endian(map: Seq<u8>, offset: int)
    requires
        0 <= offset,
        offset + 4 <= map.len(),
    ensures
        u32_at(map, offset) == map[offset] + 256 * map[offset + 1] + 65_536 * map[offset + 2]
            + 16_777_216 * map[offset + 3],
{
}

/// A rectangle of a surface that lies in the mapping can be copied, unless it is empty, and
/// the copy holds its pixels: byte `b` of pixel `(x + column, y + row)` stands where a tight
/// image of the rectangle has it.
pub proof fn copies_hold_the_pixels(
    map: Seq<u8>,
    x: int,
    y: int,
    width: int,
    height: int,
    stride: int,
    surface_width: int,
    surface_height: int,
    column: int,
    row: int,
    b: int,
)
    requires
        0 <= x,
        0 <= y,
        0 < width,
        0 < height,
        x + width <= surface_width,
        y + height <= surface_height,
        4 * surface_width <= stride,
        64 + stride * surface_height <= map.len() <= usize::MAX,
        0 <= column < width,
        0 <= row < height,
        0 <= b < 4,
    ensures
        rect_fits(
            map.len() as int,
            x,
            y,
            width,
            height,
            stride,
            surface_width,
            surface_height,
        ),
        packed_rows(map, x, y, width, stride, height).len() == 4 * width * height,
        packed_rows(map, x, y, width, stride, height)[4 * (row * width + column) + b] == map[64 + (y
            + row) * stride + 4 * (x + column) + b],
{
    assert((y + height - 1) * stride + stride <= stride * surface_height) by (nonlinear_arith)
        requires
            y + height <= surface_height,
            0 <= stride,
    ;
    assert(width * 4 * height <= stride * surface_height) by (nonlinear_arith)
        requires
            0 < width,
            0 < height,
            0 <= x,
            0 <= y,
            x + width <= surface_width,
            y + height <= surface_height,
            4 * surface_width <= stride,
    ;
    packed_rows_are_tight(map, x, y, width, stride, height);
    assert(height * (width * 4) == 4 * width * height) by (nonlinear_arith);
    assert(row * (width * 4) + (4 * column + b) == 4 * (row * width + column) + b)
        by (nonlinear_arith);
    assert(packed_rows(map, x, y, width, stride, height)[row * (width * 4) + (4 * column + b)]
        == map[SHM_PIXELS_OFFSET + (y + row) * stride + x * 4 + (4 * column + b)]);
}

/// A rectangle that is empty or reaches beyond its surface or the mapping is not copied.
pub proof fn stray_rectangles_are_not_copied(
    map_len: int,
    x: int,
    y: int,
    width: int,
    height: int,
    stride: int,
    surface_width: int,
    surface_height: int,
)
    requires
        width == 0 || height == 0 || x + width > surface_width || y + height > surface_height || 64
            + (y + height - 1) * stride + 4 * (x + width) > map_len,
    ensures
        !rect_fits(map_len, x, y, width, height, stride, surface_width, surface_height),
{
}

/// A copy is kept only where the same generation stands before and after it, even and not
/// zero.
pub proof fn copies_are_of_stable_frames(expected: u32, observed: u32)
    ensures
        stable(expected, observed) <==> expected == observed && expected != 0 && expected % 2 == 0,
{
}

/// A legacy reader publishes every changed generation, odd or even; a sequenced
/// reader publishes changed generations that are even and not zero.
pub proof fn publication_rules(last: u32, generation: u32)
    ensures
        is_publication(MainDisplayMode::LegacyPublishedGeneration, last, generation)
            <==> generation != last,
        is_publication(MainDisplayMode::SequencedStableSnapshot, last, generation) <==> generation
            != last && generation != 0 && generation % 2 == 0,
{
}

/// A sequenced reader begins as if it had seen the generation before the one it found, so that
/// this one is news to it and the one before is not; a legacy reader begins as if it had seen
/// the one it found. Either has no region pending and knows of no surface.
pub proof fn readers_begin_without_a_region(initial: u32)
    ensures
        ({
            let sequenced = FramePoller::at_start(
                MainDisplayMode::SequencedStableSnapshot,
                initial,
            );
            let legacy = FramePoller::at_start(
                MainDisplayMode::LegacyPublishedGeneration,
                initial,
            );
            &&& (sequenced.tracker.last + 1) % 0x1_0000_0000 == initial
            &&& legacy.tracker.last == initial
            &&& sequenced.tracker.mode is SequencedStableSnapshot
            &&& legacy.tracker.mode is LegacyPublishedGeneration
            &&& sequenced.acc is None && legacy.acc is None
            &&& sequenced.first_frame && legacy.first_frame
            &&& sequenced.last_w == 0 && sequenced.last_h == 0
            &&& legacy.last_w == 0 && legacy.last_h == 0
        }),
{
}

/// A mapping holds a display where it has room for the header of 64 bytes and begins with the
/// four bytes of the magic, the least significant one first.
pub proof fn displays_begin_with_their_magic(map: Seq<u8>)
    ensures
        holds_display(map) <==> map.len() >= 64 && map[0] == 0x48 && map[1] == 0x53 && map[2]
            == 0x4d && map[3] == 0x51,
{
}

/// A generation that is news is remembered, whether or not its frame could be used, so that it
/// is not looked at again; without the magic, and without news, the reader stays as it is.
pub proof fn news_are_remembered(p: FramePoller, h: FrameHeader, map_len: int)
    ensures
        ({
            let after = p.after_poll(h, map_len);
            let news = h.generation != p.tracker.last && (
            p.tracker.mode is SequencedStableSnapshot ==> h.generation != 0 && h.generation % 2
                == 0);
            &&& h.magic != 0x514D_5348 ==> after == p
            &&& !news ==> after == p
            &&& h.magic == 0x514D_5348 && news ==> after.tracker.last == h.generation
            &&& h.magic == 0x514D_5348 && news ==> after.after_poll(h, map_len) == after
            &&& after.tracker.mode == p.tracker.mode
            &&& after.first_frame == p.first_frame
        }),
{
    publication_rules(p.tracker.last, h.generation);
    publication_rules(h.generation, h.generation);
}

/// A notification that refers to the mapping has the rows of the mapping. One that carries its
/// pixels has rows of its own, with four bytes for each pixel and nothing between them.
pub proof fn carried_rows_are_tight(width: int, stride: int)
    ensures
        published_stride(MainDisplayMode::LegacyPublishedGeneration, width, stride) == stride,
        published_stride(MainDisplayMode::SequencedStableSnapshot, width, stride) == width + width
            + width + width,
{
}

} // verus!
