//! The jog display: reading stable frames from the guest's shared memory.
//!
//! Layout of the region:
//!   0x0000 u32 magic = 'JOG1' (LE 0x31474F4A)
//!   0x0004 u32 seq      sequence counter (odd = write in progress)
//!   0x0008 u16 width
//!   0x000A u16 height
//!   0x000C u32 format   1 = XRGB8888
//!   0x1000 pixels       width*height*4 bytes

use vstd::prelude::*;

use crate::main_stream;
use crate::main_stream::read_u32;
use crate::text;
use crate::text::path_below;

verus! {

/// Jog display width after the guest-side crop (physical panel).
pub const JOG_FB_W: usize = 320;

/// Jog display height.
pub const JOG_FB_H: usize = 240;

/// The size of a frame in bytes.
pub const FRAME_BYTES: usize = 307_200;

pub const SHM_MAGIC: u32 = 0x3147_4F4A;

pub const SHM_FMT_XRGB8888: u32 = 1;

pub const SHM_PIXELS_OFF: usize = 0x1000;

/// How often a copy is tried before the next poll.
pub const COPY_TRIES: u8 = 4;

/// Framebuffer `(x, y)` pixel indices whose colors stand for the corner indicators:
/// top-left, top-right, bottom-left, bottom-right (SLIP, VINYL, SYNC, MASTER). They
/// lie a fifth of the width and a tenth of the height inside the edges.
pub fn jog_corner_probe_fb_pixels() -> (r: [(usize, usize); 4])
    ensures
        r@ == seq![(64usize, 24usize), (255usize, 24usize), (64usize, 215usize), (
            255usize,
            215usize,
        )],
        forall|i: int|
            0 <= i < 4 ==> (#[trigger] r@[i]).0 < JOG_FB_W && r@[i].1 < JOG_FB_H,
{
    let dx: usize = JOG_FB_W / 5;
    let dy: usize = JOG_FB_H / 10;
    let xm: usize = JOG_FB_W - 1 - dx;
    let ym: usize = JOG_FB_H - 1 - dy;
    let probes = [(dx, dy), (xm, dy), (dx, ym), (xm, ym)];
    assert(probes@ =~= seq![(64usize, 24usize), (255usize, 24usize), (64usize, 215usize), (
        255usize,
        215usize,
    )]);
    probes
}

/// The color of a pixel as red, green, blue and full opacity. The canvas holds blue,
/// green, red and a filler byte.
pub open spec fn pixel_rgba(canvas: Seq<u8>, x: int, y: int) -> Seq<u8> {
    let i = (y * JOG_FB_W + x) * 4;
    if i + 4 <= canvas.len() {
        seq![canvas[i + 2], canvas[i + 1], canvas[i], 255u8]
    } else {
        seq![0u8, 0u8, 0u8, 255u8]
    }
}

/// Reads the color of a pixel. A pixel outside the canvas is black.
pub fn sample_corner_rgba(canvas: &[u8], x: usize, y: usize) -> (r: [u8; 4])
    requires
        x < JOG_FB_W,
        y < JOG_FB_H,
    ensures
        r@ == pixel_rgba(canvas@, x as int, y as int),
{
    let i: usize = (y * JOG_FB_W + x) * 4;
    let rgba = if i + 4 <= canvas.len() {
        [canvas[i + 2], canvas[i + 1], canvas[i], 255]
    } else {
        [0, 0, 0, 255]
    };
    assert(rgba@ =~= pixel_rgba(canvas@, x as int, y as int));
    rgba
}

/// The colors at the four corner probes.
pub fn corner_colors_from_canvas(canvas: &[u8]) -> (r: [[u8; 4]; 4])
    ensures
        r@[0]@ == pixel_rgba(canvas@, 64, 24),
        r@[1]@ == pixel_rgba(canvas@, 255, 24),
        r@[2]@ == pixel_rgba(canvas@, 64, 215),
        r@[3]@ == pixel_rgba(canvas@, 255, 215),
{
    let probes = jog_corner_probe_fb_pixels();
    [
        sample_corner_rgba(canvas, probes[0].0, probes[0].1),
        sample_corner_rgba(canvas, probes[1].0, probes[1].1),
        sample_corner_rgba(canvas, probes[2].0, probes[2].1),
        sample_corner_rgba(canvas, probes[3].0, probes[3].1),
    ]
}

/// The shared file of the jog display.
pub fn jog_shm_file(socket_dir: &str) -> (r: String)
    ensures
        r@ == text::file_below(socket_dir@, "jog.shm"@),
{
    path_below(socket_dir, "jog.shm")
}

/// Whether a mapping is long enough for a frame.
pub fn is_large_enough(map_len: usize) -> (r: bool)
    ensures
        r == (map_len >= SHM_PIXELS_OFF + FRAME_BYTES),
{
    map_len >= SHM_PIXELS_OFF + FRAME_BYTES
}

/// Whether a failed attempt to open the file is worth a message: the first one and
/// every tenth.
pub fn attempt_is_logged(attempt: u32) -> (r: bool)
    ensures
        r == (attempt == 1 || attempt % 10 == 0),
{
    attempt == 1 || attempt % 10 == 0
}

/// The 16-bit little-endian number at `offset`.
pub open spec fn u16_at(map: Seq<u8>, offset: int) -> u16 {
    (map[offset] + map[offset + 1] * 0x100) as u16
}

/// Reads a 16-bit little-endian number.
pub fn read_u16(map: &[u8], offset: usize) -> (r: u16)
    requires
        offset + 2 <= map@.len(),
    ensures
        r == u16_at(map@, offset as int),
{
    map[offset] as u16 + map[offset + 1] as u16 * 0x100
}

/// The header of the region.
#[derive(Clone, Copy, Debug, PartialEq, Eq, Structural)]
pub struct JogHeader {
    pub magic: u32,
    pub seq: u32,
    pub width: u16,
    pub height: u16,
    pub format: u32,
}

/// Reads the header.
pub fn read_header(map: &[u8]) -> (r: JogHeader)
    requires
        map@.len() >= 16,
    ensures
        r == (JogHeader {
            magic: main_stream::u32_at(map@, 0),
            seq: main_stream::u32_at(map@, 4),
            width: u16_at(map@, 8),
            height: u16_at(map@, 10),
            format: main_stream::u32_at(map@, 12),
        }),
{
    JogHeader {
        magic: read_u32(map, 0),
        seq: read_u32(map, 4),
        width: read_u16(map, 8),
        height: read_u16(map, 10),
        format: read_u32(map, 12),
    }
}

/// What a look at the region amounts to.
#[derive(Clone, Copy, Debug, PartialEq, Eq, Structural)]
pub enum JogPoll {
    /// The magic is gone: the region has to be mapped afresh.
    Lost,
    /// There is nothing to read.
    Wait,
    /// A frame may be copied.
    Copy,
}

/// Follows one mapping of the region.
#[derive(Clone, Copy, Debug, PartialEq, Eq, Structural)]
pub struct JogPoller {
    /// The last frame that was accepted, or 0.
    pub last_seq: u32,
    /// Frames keep coming.
    pub connected: bool,
    /// A frame was accepted from this mapping.
    pub has_frame: bool,
}

/// The sequence number announces a frame that was not accepted yet and is not being
/// written.
pub open spec fn announces_frame(last_seq: u32, seq: u32) -> bool {
    seq != last_seq && seq % 2 == 0
}

/// The header describes a frame of the panel.
pub open spec fn is_panel_frame(h: JogHeader) -> bool {
    h.format == SHM_FMT_XRGB8888 && h.width == JOG_FB_W && h.height == JOG_FB_H
}

impl JogPoller {
    /// What a look at a header amounts to.
    pub open spec fn poll_result(&self, h: JogHeader) -> JogPoll {
        if h.magic != SHM_MAGIC {
            JogPoll::Lost
        } else if announces_frame(self.last_seq, h.seq) && is_panel_frame(h) {
            JogPoll::Copy
        } else {
            JogPoll::Wait
        }
    }

    /// A look at a header loses the connection.
    pub open spec fn drops(&self, h: JogHeader, stalled: bool) -> bool {
        h.magic != SHM_MAGIC || (!announces_frame(self.last_seq, h.seq) && self.has_frame
            && stalled)
    }

    /// The reader after a look at a header.
    pub open spec fn after_poll(&self, h: JogHeader, stalled: bool) -> JogPoller {
        JogPoller { connected: self.connected && !self.drops(h, stalled), ..*self }
    }

    /// A copy is a new frame.
    pub open spec fn accepts(&self, copied: Option<u32>) -> bool {
        copied is Some && copied->0 != self.last_seq
    }

    /// The reader after a copy was tried.
    pub open spec fn after_copy(&self, copied: Option<u32>) -> JogPoller {
        if self.accepts(copied) {
            JogPoller { last_seq: copied->0, connected: true, has_frame: true }
        } else {
            *self
        }
    }

    /// A reader of a fresh mapping.
    pub fn new(connected: bool) -> (r: Self)
        ensures
            r == (JogPoller { last_seq: 0, connected, has_frame: false }),
    {
        JogPoller { last_seq: 0, connected, has_frame: false }
    }

    /// Looks at the header; `stalled` says that the last frame is too long ago. The
    /// second result says whether the UI has to be told of a lost connection.
    pub fn poll(&mut self, h: JogHeader, stalled: bool) -> (r: (JogPoll, bool))
        ensures
            r.0 == old(self).poll_result(h),
            r.1 == (old(self).connected && old(self).drops(h, stalled)),
            *final(self) == old(self).after_poll(h, stalled),
            r.0 == (if h.magic != SHM_MAGIC {
                JogPoll::Lost
            } else if announces_frame(old(self).last_seq, h.seq) && is_panel_frame(h) {
                JogPoll::Copy
            } else {
                JogPoll::Wait
            }),
            ({
                let drops = h.magic != SHM_MAGIC || !announces_frame(old(self).last_seq, h.seq)
                    && old(self).has_frame && stalled;
                &&& r.1 == (drops && old(self).connected)
                &&& *final(self) == (JogPoller {
                    connected: old(self).connected && !drops,
                    ..*old(self)
                })
            }),
    {
        let was_connected = self.connected;
        if h.magic != SHM_MAGIC {
            self.connected = false;
            return (JogPoll::Lost, was_connected);
        }
        if h.seq == self.last_seq || h.seq % 2 != 0 {
            if self.has_frame && stalled {
                self.connected = false;
                return (JogPoll::Wait, was_connected);
            }
            return (JogPoll::Wait, false);
        }
        if h.format != SHM_FMT_XRGB8888 {
            return (JogPoll::Wait, false);
        }
        if h.width as usize != JOG_FB_W || h.height as usize != JOG_FB_H {
            return (JogPoll::Wait, false);
        }
        (JogPoll::Copy, false)
    }

    /// Takes in the sequence number of a stable copy, if there is one, and says
    /// whether the copy is a new frame. A new frame is to be reported to the control gate
    /// and published.
    pub fn accept(&mut self, copied: Option<u32>) -> (r: bool)
        ensures
            r == old(self).accepts(copied),
            *final(self) == old(self).after_copy(copied),
            r == (copied is Some && copied->0 != old(self).last_seq),
            r ==> *final(self) == (JogPoller {
                last_seq: copied->0,
                connected: true,
                has_frame: true,
            }),
            !r ==> *final(self) == *old(self),
    {
        match copied {
            Some(seq) => {
                if seq == self.last_seq {
                    return false;
                }
                self.last_seq = seq;
                self.connected = true;
                self.has_frame = true;
                true
            },
            None => false,
        }
    }
}

/// Tries to copy a frame that is not being written.
#[derive(Clone, Copy, Debug, PartialEq, Eq, Structural)]
pub struct StableCopy {
    pub tries_left: u8,
}

/// What a try begins with.
#[derive(Clone, Copy, Debug, PartialEq, Eq, Structural)]
pub enum CopyTry {
    /// Copy the pixels, then look at the sequence number again.
    Copy,
    /// The frame is being written: look at the sequence number again.
    Retry,
    /// Give up until the next poll.
    GiveUp,
}

impl StableCopy {
    /// Before the first try.
    pub fn new() -> (r: Self)
        ensures
            r.tries_left == COPY_TRIES,
    {
        StableCopy { tries_left: COPY_TRIES }
    }

    /// Begins a try with the sequence number `before`.
    pub fn begin(&mut self, before: u32) -> (r: CopyTry)
        ensures
            r == (if old(self).tries_left == 0 {
                CopyTry::GiveUp
            } else if before % 2 != 0 {
                CopyTry::Retry
            } else {
                CopyTry::Copy
            }),
            final(self).tries_left == (if old(self).tries_left == 0 {
                0
            } else {
                (old(self).tries_left - 1) as u8
            }),
    {
        if self.tries_left == 0 {
            return CopyTry::GiveUp;
        }
        self.tries_left = self.tries_left - 1;
        if before % 2 != 0 {
            CopyTry::Retry
        } else {
            CopyTry::Copy
        }
    }

    /// Ends a try that began with a copy: the copy is good if the sequence number did
    /// not change.
    pub fn end(&self, before: u32, after: u32) -> (r: Option<u32>)
        requires
            before % 2 == 0,
        ensures
            r == copied(before, after),
    {
        if before == after {
            Some(after)
        } else {
            None
        }
    }
}

/// A copy whose try began with `before` and ended with `after`.
pub open spec fn copied(before: u32, after: u32) -> Option<u32> {
    if before % 2 == 0 && before == after {
        Some(after)
    } else {
        None
    }
}

/// A frame that is accepted was not being written while it was copied, and is not
/// the one that was accepted last. So a gate counts it, unless its number is 0, which
/// only a counter that has wrapped around can have.
pub proof fn accepted_frames_are_stable_publications(last_seq: u32, before: u32, after: u32)
    requires
        copied(before, after) is Some,
        copied(before, after)->0 != last_seq,
    ensures
        after % 2 == 0,
        announces_frame(last_seq, after),
        after != 0 ==> crate::control_gate::valid_jog(after),
{
}

/// Which of two frame buffers is written next: the one whose turn it is, if nobody
/// reads it, else the other one. If both are being read, the other one is replaced.
/// The second result says whether it is.
pub fn choose_buffer(turn: usize, turn_free: bool, other_free: bool) -> (r: (usize, bool))
    requires
        turn < 2,
    ensures
        r.0 == (if turn_free {
            turn
        } else {
            (1 - turn) as usize
        }),
        r.1 == (!turn_free && !other_free),
        r.0 < 2,
        !r.1 ==> (if r.0 == turn {
            turn_free
        } else {
            other_free
        }),
        turn_free ==> r == (turn, false),
{
    if turn_free {
        (turn, false)
    } else {
        (1 - turn, !other_free)
    }
}

/// Every frame of the panel that is published is copied, and once: it is of 320 by 240 pixels
/// in XRGB, its number is even, and it is not the one that was accepted last. After it was
/// copied whole the reader is connected and waits for the next one; while it is being written,
/// and where the copy did not succeed, the reader stays as it is.
pub proof fn published_frames_are_copied_once(p: JogPoller, h: JogHeader, stalled: bool)
    requires
        h.magic == 0x3147_4F4A,
        h.format == 1,
        h.width == 320,
        h.height == 240,
    ensures
        h.seq % 2 == 0 && h.seq != p.last_seq ==> {
            let q = p.after_poll(h, stalled);
            &&& p.poll_result(h) is Copy
            &&& q == p
            &&& q.accepts(copied(h.seq, h.seq))
            &&& q.after_copy(copied(h.seq, h.seq)) == (JogPoller {
                last_seq: h.seq,
                connected: true,
                has_frame: true,
            })
            &&& q.after_copy(copied(h.seq, h.seq)).poll_result(h) is Wait
            &&& q.after_copy(None) == p
        },
        h.seq % 2 == 1 || h.seq == p.last_seq ==> p.poll_result(h) is Wait,
        forall|after: u32| after != h.seq ==> #[trigger] copied(h.seq, after) is None,
        h.seq % 2 == 1 ==> copied(h.seq, h.seq) is None,
{
}

/// Nothing else is copied: another magic means that the region is lost, and any other frame
/// than the panel's is passed over. The connection is lost with the region, or when there is no
/// news for too long after a frame, and never otherwise.
pub proof fn strange_frames_are_passed_over(p: JogPoller, h: JogHeader, stalled: bool)
    ensures
        p.poll_result(h) is Lost <==> h.magic != 0x3147_4F4A,
        h.format != 1 || h.width != 320 || h.height != 240 ==> !(p.poll_result(h) is Copy),
        p.after_poll(h, stalled).connected <==> p.connected && h.magic == 0x3147_4F4A && !(stalled
            && p.has_frame && (h.seq == p.last_seq || h.seq % 2 == 1)),
        p.after_poll(h, stalled).last_seq == p.last_seq,
        p.after_poll(h, stalled).has_frame == p.has_frame,
{
}

/// A frame lies behind the first 4096 bytes of the region: 320 by 240 pixels of four bytes,
/// row by row, blue first.
pub proof fn pixels_are_read_where_they_stand(canvas: Seq<u8>, x: int, y: int)
    requires
        canvas.len() == 320 * 240 * 4,
        0 <= x < 320,
        0 <= y < 240,
    ensures
        SHM_PIXELS_OFF == 4096,
        FRAME_BYTES == 320 * 240 * 4,
        pixel_rgba(canvas, x, y) == seq![
            canvas[4 * (320 * y + x) + 2],
            canvas[4 * (320 * y + x) + 1],
            canvas[4 * (320 * y + x)],
            255u8,
        ],
{
}

} // verus!
