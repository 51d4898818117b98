//! The control socket: assembling LED frames and deciding when to connect, to log
//! and to repaint.

use vstd::prelude::*;

use crate::control_gate::ControlConnectionGate;
use crate::text;
use crate::text::{bytes_eq, path_below};

verus! {

/// The size of a frame in either direction.
pub const FRAME_SIZE: usize = 64;

/// The latest LED frame of the guest.
#[derive(Clone, Copy, Debug)]
pub struct LedState {
    pub frame: [u8; 64],
}

impl Default for LedState {
    fn default() -> (r: Self)
        ensures
            r.frame@ == Seq::new(64, |i: int| 0u8),
    {
        let state = LedState { frame: [0u8;64] };
        assert(state.frame@ =~= Seq::new(64, |i: int| 0u8));
        state
    }
}

/// The control socket.
pub fn ctrl_sock_file(socket_dir: &str) -> (r: String)
    ensures
        r@ == text::file_below(socket_dir@, "ctrl.sock"@),
{
    path_below(socket_dir, "ctrl.sock")
}

/// Whether the socket may be connected: at once without a gate, and otherwise when
/// the control gate is ready.
pub fn may_connect(gate: Option<&ControlConnectionGate>) -> (r: bool)
    ensures
        r == (gate matches Some(g) ==> g@.ready()),
{
    match gate {
        Some(g) => g.is_ready(),
        None => true,
    }
}

/// Counts failed attempts to connect.
#[derive(Clone, Copy, Debug, PartialEq, Eq, Structural)]
pub struct ConnectFailures {
    pub attempts: u32,
}

impl ConnectFailures {
    /// No failure yet, or a success.
    pub fn none() -> (r: Self)
        ensures
            r.attempts == 0,
    {
        ConnectFailures { attempts: 0 }
    }

    /// Counts a failure, and says whether it is worth a message: the first one and
    /// every tenth.
    pub fn failed(&mut self) -> (r: bool)
        ensures
            final(self).attempts == (if old(self).attempts == u32::MAX {
                u32::MAX
            } else {
                (old(self).attempts + 1) as u32
            }),
            r == (final(self).attempts == 1 || final(self).attempts % 10 == 0),
    {
        self.attempts = self.attempts.saturating_add(1);
        self.attempts == 1 || self.attempts % 10 == 0
    }
}

/// Assembles frames from what the socket delivers.
pub struct FrameReader {
    buf: Vec<u8>,
}

impl View for FrameReader {
    type V = Seq<u8>;

    closed spec fn view(&self) -> Seq<u8> {
        self.buf@
    }
}

impl FrameReader {
    /// Less than a frame is pending.
    pub open spec fn wf(&self) -> bool {
        self@.len() < FRAME_SIZE
    }

    /// Nothing is pending.
    pub fn new() -> (r: Self)
        ensures
            r.wf(),
            r@ == Seq::<u8>::empty(),
    {
        FrameReader { buf: Vec::new() }
    }

    /// How many bytes complete the frame.
    pub fn missing(&self) -> (r: usize)
        requires
            self.wf(),
        ensures
            r == FRAME_SIZE - self@.len(),
            r > 0,
    {
        FRAME_SIZE - self.buf.len()
    }

    /// Takes in what was read, which is at most what was missing, and returns the
    /// frame that it completes.
    pub fn accept(&mut self, bytes: &[u8]) -> (r: Option<LedState>)
        requires
            old(self).wf(),
            old(self)@.len() + bytes@.len() <= FRAME_SIZE,
        ensures
            final(self).wf(),
            r is Some <==> old(self)@.len() + bytes@.len() == FRAME_SIZE,
            r matches Some(led) ==> led.frame@ == old(self)@ + bytes@ && final(self)@ == Seq::<
                u8,
            >::empty(),
            r is None ==> final(self)@ == old(self)@ + bytes@,
    {
        self.buf.extend_from_slice(bytes);
        if self.buf.len() < FRAME_SIZE {
            return None;
        }
        let mut frame = [0u8;64];
        let mut i: usize = 0;
        while i < FRAME_SIZE
            invariant
                i <= FRAME_SIZE,
                self.buf@.len() == FRAME_SIZE,
                forall|j: int| 0 <= j < i ==> #[trigger] frame@[j] == self.buf@[j],
            decreases FRAME_SIZE - i,
        {
            frame[i] = self.buf[i];
            i = i + 1;
        }
        assert(frame@ =~= self.buf@);
        self.buf.clear();
        Some(LedState { frame })
    }
}

/// Keeps the UI asleep while the guest repeats itself.
pub struct RepaintFilter {
    last: Option<LedState>,
}

impl View for RepaintFilter {
    type V = Option<Seq<u8>>;

    closed spec fn view(&self) -> Option<Seq<u8>> {
        match self.last {
            Some(led) => Some(led.frame@),
            None => None,
        }
    }
}

impl RepaintFilter {
    /// Before the first frame.
    pub fn new() -> (r: Self)
        ensures
            r@ is None,
    {
        RepaintFilter { last: None }
    }

    /// Takes in a frame, and says whether it differs from the last one for which the
    /// UI was woken. The first frame always does.
    pub fn observe(&mut self, led: LedState) -> (r: bool)
        ensures
            r == (old(self)@ != Some(led.frame@)),
            final(self)@ == Some(led.frame@),
    {
        let changed = match &self.last {
            Some(prev) => !bytes_eq(prev.frame.as_slice(), led.frame.as_slice()),
            None => true,
        };
        self.last = Some(led);
        changed
    }
}

/// The frames of a byte stream: its consecutive stretches of 64 bytes.
pub open spec fn frames_of(stream: Seq<u8>) -> Seq<Seq<u8>>
    decreases stream.len(),
{
    if stream.len() < FRAME_SIZE {
        Seq::empty()
    } else {
        frames_of(stream.take(stream.len() - FRAME_SIZE - stream.len() % FRAME_SIZE as nat)).push(
            stream.subrange(
                stream.len() - FRAME_SIZE - stream.len() % FRAME_SIZE as nat,
                stream.len() - stream.len() % FRAME_SIZE as nat,
            ),
        )
    }
}

/// What follows the last whole frame of a byte stream.
pub open spec fn pending_of(stream: Seq<u8>) -> Seq<u8> {
    stream.skip(stream.len() - stream.len() % FRAME_SIZE as nat)
}

/// However the socket cuts the stream: a reader that holds what is pending after
/// `stream` and accepts `more` holds what is pending after both, and completes a
/// frame exactly when the longer stream has one more frame, which is that frame.
pub proof fn frames_do_not_depend_on_the_cuts(stream: Seq<u8>, more: Seq<u8>)
    requires
        pending_of(stream).len() + more.len() <= FRAME_SIZE,
    ensures
        pending_of(stream).len() < FRAME_SIZE,
        pending_of(stream).len() + more.len() == FRAME_SIZE ==> {
            &&& pending_of(stream + more) == Seq::<u8>::empty()
            &&& frames_of(stream + more) == frames_of(stream).push(pending_of(stream) + more)
        },
        pending_of(stream).len() + more.len() < FRAME_SIZE ==> {
            &&& pending_of(stream + more) == pending_of(stream) + more
            &&& frames_of(stream + more) == frames_of(stream)
        },
{
    let n = stream.len();
    let m = more.len();
    let whole = n - n % FRAME_SIZE as nat;
    let both = stream + more;
    assert(pending_of(stream).len() == n % FRAME_SIZE as nat);
    if n % FRAME_SIZE as nat + m == FRAME_SIZE {
        assert((n + m) % FRAME_SIZE as nat == 0);
        assert(pending_of(both) =~= Seq::<u8>::empty());
        assert(both.take(whole) =~= stream.take(whole));
        assert(both.subrange(whole, (n + m) as int) =~= pending_of(stream) + more);
        lemma_frames_of_whole(stream);
    } else {
        assert((n + m) % FRAME_SIZE as nat == n % FRAME_SIZE as nat + m);
        assert(pending_of(both) =~= pending_of(stream) + more);
        lemma_frames_of_whole(stream);
        lemma_frames_of_whole(both);
        assert(both.take(whole) =~= stream.take(whole));
    }
}

/// What is pending has no part in the frames.
proof fn lemma_frames_of_whole(stream: Seq<u8>)
    ensures
        frames_of(stream) == frames_of(stream.take(stream.len() - stream.len() % FRAME_SIZE as nat)),
{
    let whole = stream.len() - stream.len() % FRAME_SIZE as nat;
    let s = stream.take(whole);
    assert(s.len() % FRAME_SIZE as nat == 0);
    if stream.len() >= FRAME_SIZE {
        assert(s.take(whole - FRAME_SIZE) =~= stream.take(whole - FRAME_SIZE));
        assert(s.subrange(whole - FRAME_SIZE, whole) =~= stream.subrange(
            whole - FRAME_SIZE,
            whole,
        ));
    }
}

/// A stream has as many frames as it has stretches of 64 bytes, and each frame is one of
/// them, in their order.
pub proof fn frames_are_stretches_of_64_bytes(stream: Seq<u8>, i: int)
    ensures
        frames_of(stream).len() == stream.len() / 64,
        pending_of(stream).len() == stream.len() % 64,
        0 <= i && 64 * i + 64 <= stream.len() ==> frames_of(stream)[i] == stream.subrange(
            64 * i,
            64 * i + 64,
        ),
    decreases stream.len(),
{
    if stream.len() >= 64 {
        let whole = stream.len() - stream.len() % 64;
        let front = stream.take(whole - 64);
        frames_are_stretches_of_64_bytes(front, i);
        if 0 <= i && 64 * i + 64 <= whole - 64 {
            assert(front.subrange(64 * i, 64 * i + 64) =~= stream.subrange(64 * i, 64 * i + 64));
        }
    }
}

/// A reader never holds a whole frame back: fewer than 64 bytes are pending.
pub proof fn whole_frames_are_not_held_back(reader: FrameReader)
    requires
        reader.wf(),
    ensures
        reader@.len() <= 63,
{
}

} // verus!
