//! Readiness gate for the interactive control socket.
//!
//! The control stream is opened only after the current QEMU launch has produced
//! a real main frame and two stable jog publications. Every observation carries
//! the launch it was made for, so that a reader or observer left over from an
//! earlier launch cannot ready a later one. The serial "Application Started"
//! marker is tracked as a milestone and is not a condition for readiness.

use vstd::prelude::*;

verus! {

/// The width of a main frame that counts for readiness.
pub const READY_WIDTH: u32 = 1280;

/// The height of a main frame that counts for readiness.
pub const READY_HEIGHT: u32 = 720;

/// A token for one QEMU launch.
#[derive(Clone, Copy, Debug, Eq, PartialEq, Structural)]
pub struct LaunchEpoch(u64);

impl LaunchEpoch {
    /// The number of the launch.
    pub closed spec fn number(&self) -> u64 {
        self.0
    }

    /// A token is its number: the tokens of the same launch are equal.
    pub proof fn tokens_are_their_numbers(a: LaunchEpoch, b: LaunchEpoch)
        ensures
            a.number() == b.number() <==> a == b,
    {
    }
}

/// The control gate, as the milestones that were observed last and the launch that each
/// was observed for.
pub struct ControlConnectionGate {
    epoch: u64,
    application_started_epoch: u64,
    main_ready_epoch: u64,
    jog_ready_epoch: u64,
    last_jog_seq: u32,
    jog_advances: u32,
}

/// What the control gate holds.
pub struct GateView {
    /// The current launch.
    pub epoch: u64,
    /// The launch that reached the serial milestone, or 0.
    pub application_started_epoch: u64,
    /// The launch that showed a main frame, or 0.
    pub main_ready_epoch: u64,
    /// The launch that showed two jog publications, or 0.
    pub jog_ready_epoch: u64,
    /// The last jog publication that was counted, or 0.
    pub last_jog_seq: u32,
    /// How many jog publications were counted, modulo 2^32.
    pub jog_advances: u32,
}

/// A main frame that counts: published, and of the panel's size.
pub open spec fn valid_main(generation: u32, width: u32, height: u32) -> bool {
    generation != 0 && width == READY_WIDTH && height == READY_HEIGHT
}

/// A jog publication that counts: nonzero and even, hence not being written.
pub open spec fn valid_jog(seq: u32) -> bool {
    seq != 0 && seq % 2 == 0
}

impl GateView {
    /// Before any launch.
    pub open spec fn initial() -> GateView {
        GateView {
            epoch: 1,
            application_started_epoch: 0,
            main_ready_epoch: 0,
            jog_ready_epoch: 0,
            last_jog_seq: 0,
            jog_advances: 0,
        }
    }

    /// Controls may connect.
    pub open spec fn ready(self) -> bool {
        self.main_ready_epoch == self.epoch && self.jog_ready_epoch == self.epoch
    }

    /// The current launch has reached the serial milestone.
    pub open spec fn started(self) -> bool {
        self.application_started_epoch == self.epoch
    }

    /// The control gate with a new current launch and nothing observed for it. The
    /// number of the launch wraps around.
    pub open spec fn renewed(self) -> GateView {
        GateView {
            epoch: if self.epoch == u64::MAX {
                0
            } else {
                (self.epoch + 1) as u64
            },
            application_started_epoch: 0,
            main_ready_epoch: 0,
            jog_ready_epoch: 0,
            last_jog_seq: 0,
            jog_advances: 0,
        }
    }

    /// The control gate after the serial milestone of `epoch`.
    pub open spec fn released(self, epoch: u64) -> GateView {
        if epoch == self.epoch {
            GateView { application_started_epoch: epoch, ..self }
        } else {
            self
        }
    }

    /// The control gate after a main frame of `epoch`.
    pub open spec fn observed_main(
        self,
        epoch: u64,
        generation: u32,
        width: u32,
        height: u32,
    ) -> GateView {
        if epoch == self.epoch && valid_main(generation, width, height) {
            GateView { main_ready_epoch: epoch, ..self }
        } else {
            self
        }
    }

    /// The control gate after a jog publication of `epoch`. A publication that repeats
    /// the last one does not count; the second one that counts makes the jog
    /// display ready.
    pub open spec fn observed_jog(self, epoch: u64, seq: u32) -> GateView {
        if epoch == self.epoch && valid_jog(seq) && seq != self.last_jog_seq {
            let advances = if self.jog_advances == u32::MAX {
                0u32
            } else {
                (self.jog_advances + 1) as u32
            };
            GateView {
                last_jog_seq: seq,
                jog_advances: advances,
                jog_ready_epoch: if advances >= 2 {
                    epoch
                } else {
                    self.jog_ready_epoch
                },
                ..self
            }
        } else {
            self
        }
    }
}

impl View for ControlConnectionGate {
    type V = GateView;

    closed spec fn view(&self) -> GateView {
        GateView {
            epoch: self.epoch,
            application_started_epoch: self.application_started_epoch,
            main_ready_epoch: self.main_ready_epoch,
            jog_ready_epoch: self.jog_ready_epoch,
            last_jog_seq: self.last_jog_seq,
            jog_advances: self.jog_advances,
        }
    }
}

impl ControlConnectionGate {
    /// A gate before any launch.
    pub fn new() -> (r: Self)
        ensures
            r@ == GateView::initial(),
    {
        ControlConnectionGate {
            epoch: 1,
            application_started_epoch: 0,
            main_ready_epoch: 0,
            jog_ready_epoch: 0,
            last_jog_seq: 0,
            jog_advances: 0,
        }
    }

    /// Starts a fresh launch and forgets all prior readiness.
    pub fn begin_launch(&mut self) -> (r: LaunchEpoch)
        requires
            old(self)@.epoch < u64::MAX,
        ensures
            final(self)@ == old(self)@.renewed(),
            r.number() == final(self)@.epoch,
    {
        self.invalidate();
        LaunchEpoch(self.epoch)
    }

    /// The same as [`ControlConnectionGate::begin_launch`].
    pub fn begin_epoch(&mut self) -> (r: LaunchEpoch)
        requires
            old(self)@.epoch < u64::MAX,
        ensures
            final(self)@ == old(self)@.renewed(),
            r.number() == final(self)@.epoch,
    {
        self.begin_launch()
    }

    /// Ends the current launch and forgets all readiness observed for it.
    pub fn invalidate(&mut self)
        ensures
            final(self)@ == old(self)@.renewed(),
    {
        self.epoch = self.epoch.wrapping_add(1);
        self.application_started_epoch = 0;
        self.main_ready_epoch = 0;
        self.jog_ready_epoch = 0;
        self.last_jog_seq = 0;
        self.jog_advances = 0;
    }

    /// Marks the serial milestone of `epoch`, where that launch is the current
    /// one, and says whether it is.
    pub fn release(&mut self, epoch: LaunchEpoch) -> (r: bool)
        ensures
            r == (epoch.number() == old(self)@.epoch),
            final(self)@ == old(self)@.released(epoch.number()),
    {
        if self.epoch != epoch.0 {
            return false;
        }
        self.application_started_epoch = epoch.0;
        true
    }

    /// The token of the current launch. A display reader takes it when it maps
    /// its shared file and hands it in with every observation from that mapping.
    pub fn current_epoch(&self) -> (r: LaunchEpoch)
        ensures
            r.number() == self@.epoch,
    {
        LaunchEpoch(self.epoch)
    }

    /// Takes in a main frame.
    pub fn observe_main(&mut self, epoch: LaunchEpoch, generation: u32, width: u32, height: u32)
        ensures
            final(self)@ == old(self)@.observed_main(epoch.number(), generation, width, height),
    {
        if self.is_current(epoch) && generation != 0 && width == READY_WIDTH && height
            == READY_HEIGHT {
            self.main_ready_epoch = epoch.0;
        }
    }

    /// Takes in a jog publication.
    pub fn observe_jog(&mut self, epoch: LaunchEpoch, seq: u32)
        ensures
            final(self)@ == old(self)@.observed_jog(epoch.number(), seq),
    {
        if seq == 0 || seq % 2 != 0 {
            return ;
        }
        if !self.is_current(epoch) {
            return ;
        }
        if self.last_jog_seq != seq {
            self.last_jog_seq = seq;
            self.jog_advances = self.jog_advances.wrapping_add(1);
            if self.jog_advances >= 2 {
                self.jog_ready_epoch = epoch.0;
            }
        }
    }

    /// Whether controls may connect.
    pub fn is_ready(&self) -> (r: bool)
        ensures
            r == self@.ready(),
    {
        self.main_ready_epoch == self.epoch && self.jog_ready_epoch == self.epoch
    }

    /// Whether the current launch has reached the serial milestone.
    pub fn application_started(&self) -> (r: bool)
        ensures
            r == self@.started(),
    {
        self.application_started_epoch == self.epoch
    }

    /// Whether `epoch` is the current launch.
    pub fn is_current(&self, epoch: LaunchEpoch) -> (r: bool)
        ensures
            r == (epoch.number() == self@.epoch),
    {
        self.epoch == epoch.0
    }
}

impl Default for ControlConnectionGate {
    fn default() -> (r: Self)
        ensures
            r@ == GateView::initial(),
    {
        ControlConnectionGate::new()
    }
}

/// Something observed of a launch.
pub enum Observation {
    Main { epoch: u64, generation: u32, width: u32, height: u32 },
    Jog { epoch: u64, seq: u32 },
    Serial { epoch: u64 },
}

impl GateView {
    /// The control gate after one observation.
    pub open spec fn observed(self, o: Observation) -> GateView {
        match o {
            Observation::Main { epoch, generation, width, height } => self.observed_main(
                epoch,
                generation,
                width,
                height,
            ),
            Observation::Jog { epoch, seq } => self.observed_jog(epoch, seq),
            Observation::Serial { epoch } => self.released(epoch),
        }
    }

    /// The control gate after a series of observations.
    pub open spec fn observed_all(self, obs: Seq<Observation>) -> GateView
        decreases obs.len(),
    {
        if obs.len() == 0 {
            self
        } else {
            self.observed_all(obs.drop_last()).observed(obs.last())
        }
    }
}

/// A main frame of `epoch` that counts.
pub open spec fn counts_as_main(o: Observation, epoch: u64) -> bool {
    match o {
        Observation::Main { epoch: e, generation, width, height } => e == epoch && valid_main(
            generation,
            width,
            height,
        ),
        _ => false,
    }
}

/// A jog publication of `epoch` that counts.
pub open spec fn counts_as_jog(o: Observation, epoch: u64) -> bool {
    match o {
        Observation::Jog { epoch: e, seq } => e == epoch && valid_jog(seq),
        _ => false,
    }
}

/// The sequence number of a jog publication.
pub open spec fn jog_seq(o: Observation) -> u32 {
    match o {
        Observation::Jog { seq, .. } => seq,
        _ => 0,
    }
}

/// A main frame of `epoch` is among the observations.
pub open spec fn saw_main(obs: Seq<Observation>, epoch: u64) -> bool {
    exists|i: int| 0 <= i < obs.len() && counts_as_main(#[trigger] obs[i], epoch)
}

/// Two different jog publications of `epoch` are among the observations.
pub open spec fn saw_two_jogs(obs: Seq<Observation>, epoch: u64) -> bool {
    exists|i: int, j: int|
        0 <= i < obs.len() && 0 <= j < obs.len() && counts_as_jog(#[trigger] obs[i], epoch)
            && counts_as_jog(#[trigger] obs[j], epoch) && jog_seq(obs[i]) != jog_seq(obs[j])
}

/// The serial milestone of `epoch` is among the observations.
pub open spec fn saw_serial(obs: Seq<Observation>, epoch: u64) -> bool {
    exists|i: int| 0 <= i < obs.len() && #[trigger] obs[i] == (Observation::Serial { epoch })
}

/// What holds of a gate after observations that followed a launch.
spec fn tracks(g: GateView, obs: Seq<Observation>, epoch: u64) -> bool {
    &&& g.epoch == epoch
    &&& (g.main_ready_epoch == epoch) == saw_main(obs, epoch)
    &&& (g.jog_ready_epoch == epoch) == saw_two_jogs(obs, epoch)
    &&& (g.application_started_epoch == epoch) == saw_serial(obs, epoch)
    &&& (g.last_jog_seq == 0) == (forall|i: int|
        0 <= i < obs.len() ==> !counts_as_jog(#[trigger] obs[i], epoch))
    &&& g.last_jog_seq != 0 ==> exists|i: int|
        0 <= i < obs.len() && counts_as_jog(#[trigger] obs[i], epoch) && jog_seq(obs[i])
            == g.last_jog_seq
    &&& g.jog_ready_epoch != epoch ==> g.jog_advances == (if g.last_jog_seq == 0 {
        0int
    } else {
        1int
    })
}

proof fn lemma_tracks(g: GateView, obs: Seq<Observation>)
    requires
        g.epoch < u64::MAX,
    ensures
        tracks(g.renewed().observed_all(obs), obs, g.renewed().epoch),
    decreases obs.len(),
{
    let start = g.renewed();
    let epoch = start.epoch;
    if obs.len() > 0 {
        let before = obs.drop_last();
        let o = obs.last();
        lemma_tracks(g, before);
        let gb = start.observed_all(before);
        let ga = gb.observed(o);
        assert(forall|i: int| 0 <= i < before.len() ==> #[trigger] before[i] == obs[i]);
        assert(obs[obs.len() - 1] == o);
        assert forall|i: int| 0 <= i < obs.len() - 1 implies #[trigger] obs[i] == before[i] by {}
        assert(saw_main(obs, epoch) == (saw_main(before, epoch) || counts_as_main(o, epoch)));
        assert(saw_serial(obs, epoch) == (saw_serial(before, epoch) || o == (
        Observation::Serial { epoch })));
        if counts_as_jog(o, epoch) {
            if gb.last_jog_seq == jog_seq(o) {
                let k = choose|i: int|
                    0 <= i < before.len() && counts_as_jog(#[trigger] before[i], epoch) && jog_seq(
                        before[i],
                    ) == gb.last_jog_seq;
                if saw_two_jogs(obs, epoch) && !saw_two_jogs(before, epoch) {
                    let (i, j) = choose|i: int, j: int|
                        0 <= i < obs.len() && 0 <= j < obs.len() && counts_as_jog(
                            #[trigger] obs[i],
                            epoch,
                        ) && counts_as_jog(#[trigger] obs[j], epoch) && jog_seq(obs[i]) != jog_seq(
                            obs[j],
                        );
                    let i2 = if i == obs.len() - 1 { k } else { i };
                    let j2 = if j == obs.len() - 1 { k } else { j };
                    assert(counts_as_jog(before[i2], epoch) && counts_as_jog(before[j2], epoch));
                    assert(jog_seq(before[i2]) != jog_seq(before[j2]));
                }
                if saw_two_jogs(before, epoch) {
                    let (i, j) = choose|i: int, j: int|
                        0 <= i < before.len() && 0 <= j < before.len() && counts_as_jog(
                            #[trigger] before[i],
                            epoch,
                        ) && counts_as_jog(#[trigger] before[j], epoch) && jog_seq(before[i])
                            != jog_seq(before[j]);
                    assert(counts_as_jog(obs[i], epoch) && counts_as_jog(obs[j], epoch));
                }
            } else {
                assert(counts_as_jog(obs[obs.len() - 1], epoch));
                if gb.last_jog_seq != 0 {
                    let k = choose|i: int|
                        0 <= i < before.len() && counts_as_jog(#[trigger] before[i], epoch)
                            && jog_seq(before[i]) == gb.last_jog_seq;
                    assert(counts_as_jog(obs[k], epoch));
                    assert(saw_two_jogs(obs, epoch));
                } else {
                    assert(!saw_two_jogs(obs, epoch));
                }
            }
        } else {
            assert(saw_two_jogs(obs, epoch) == saw_two_jogs(before, epoch)) by {
                if saw_two_jogs(before, epoch) {
                    let (i, j) = choose|i: int, j: int|
                        0 <= i < before.len() && 0 <= j < before.len() && counts_as_jog(
                            #[trigger] before[i],
                            epoch,
                        ) && counts_as_jog(#[trigger] before[j], epoch) && jog_seq(before[i])
                            != jog_seq(before[j]);
                    assert(counts_as_jog(obs[i], epoch) && counts_as_jog(obs[j], epoch));
                }
            }
        }
        assert(forall|i: int|
            0 <= i < before.len() && counts_as_jog(#[trigger] before[i], epoch) ==> counts_as_jog(
                obs[i],
                epoch,
            ));
        assert(tracks(ga, obs, epoch));
    }
}

/// After a launch, and whatever was observed since in whatever order, controls
/// may connect exactly when a valid main frame of that launch and two different
/// valid jog publications of that launch were observed. Observations made for
/// any other launch, and the serial milestone, have no part in it. The serial
/// milestone is reported exactly when that launch reached it.
pub proof fn readiness_is_main_and_two_jogs(g: GateView, obs: Seq<Observation>)
    requires
        g.epoch < u64::MAX,
    ensures
        g.renewed().observed_all(obs).ready() <==> saw_main(obs, g.renewed().epoch)
            && saw_two_jogs(obs, g.renewed().epoch),
        g.renewed().observed_all(obs).started() <==> saw_serial(obs, g.renewed().epoch),
{
    lemma_tracks(g, obs);
}

/// Readiness does not depend on the order of the observations.
pub proof fn readiness_order_is_independent(
    g: GateView,
    a: Seq<Observation>,
    b: Seq<Observation>,
)
    requires
        g.epoch < u64::MAX,
        forall|o: Observation| a.contains(o) <==> b.contains(o),
    ensures
        g.renewed().observed_all(a).ready() == g.renewed().observed_all(b).ready(),
{
    let e = g.renewed().epoch;
    readiness_is_main_and_two_jogs(g, a);
    readiness_is_main_and_two_jogs(g, b);
    lemma_same_observations(a, b, e);
    lemma_same_observations(b, a, e);
}

proof fn lemma_same_observations(a: Seq<Observation>, b: Seq<Observation>, epoch: u64)
    requires
        forall|o: Observation| a.contains(o) <==> b.contains(o),
    ensures
        saw_main(a, epoch) ==> saw_main(b, epoch),
        saw_two_jogs(a, epoch) ==> saw_two_jogs(b, epoch),
{
    if saw_main(a, epoch) {
        let i = choose|i: int| 0 <= i < a.len() && counts_as_main(#[trigger] a[i], epoch);
        assert(a.contains(a[i]));
        assert(b.contains(a[i]));
    }
    if saw_two_jogs(a, epoch) {
        let (i, j) = choose|i: int, j: int|
            0 <= i < a.len() && 0 <= j < a.len() && counts_as_jog(#[trigger] a[i], epoch)
                && counts_as_jog(#[trigger] a[j], epoch) && jog_seq(a[i]) != jog_seq(a[j]);
        assert(a.contains(a[i]) && a.contains(a[j]));
        assert(b.contains(a[i]) && b.contains(a[j]));
    }
}

/// A new launch, or the end of one, starts out neither ready nor started.
pub proof fn nothing_survives_a_launch(g: GateView)
    requires
        g.epoch < u64::MAX,
    ensures
        !g.renewed().ready(),
        !g.renewed().started(),
        g.renewed().epoch != g.epoch,
{
}

/// An observation made for another launch changes nothing.
pub proof fn stale_observations_are_ignored(g: GateView, o: Observation)
    requires
        match o {
            Observation::Main { epoch, .. } => epoch != g.epoch,
            Observation::Jog { epoch, .. } => epoch != g.epoch,
            Observation::Serial { epoch } => epoch != g.epoch,
        },
    ensures
        g.observed(o) == g,
{
}

/// A main frame counts that is published and fills the panel of 1280 by 720 pixels; a jog
/// publication counts that is numbered and not being written.
pub proof fn frames_count_by_size_and_number(generation: u32, width: u32, height: u32, seq: u32)
    ensures
        valid_main(generation, width, height) <==> generation >= 1 && width == 1280 && height
            == 720,
        valid_jog(seq) <==> seq >= 2 && seq % 2 == 0,
{
}

/// One main frame and two different jog publications of the current launch open a gate that
/// nothing was observed for, in any order; any two of the three do not.
pub proof fn gates_open_after_three_observations(
    g: GateView,
    generation: u32,
    first: u32,
    second: u32,
)
    requires
        g.epoch < u64::MAX,
        generation != 0,
        first != 0,
        second != 0,
        first % 2 == 0,
        second % 2 == 0,
        first != second,
    ensures
        ({
            let n = g.renewed();
            let e = n.epoch;
            &&& n.observed_main(e, generation, 1280, 720).observed_jog(e, first).observed_jog(
                e,
                second,
            ).ready()
            &&& n.observed_jog(e, first).observed_jog(e, second).observed_main(
                e,
                generation,
                1280,
                720,
            ).ready()
            &&& !n.observed_jog(e, first).observed_jog(e, second).ready()
            &&& !n.observed_main(e, generation, 1280, 720).observed_jog(e, first).ready()
            &&& !n.observed_main(e, generation, 1280, 720).observed_jog(e, first).observed_jog(
                e,
                first,
            ).ready()
            &&& n.released(e).started() && !n.released(e).ready()
        }),
{
}

/// The control gate begins closed, with nothing observed, as after the launch that follows
/// launch number zero.
pub proof fn gates_begin_closed(g: GateView)
    ensures
        !GateView::initial().ready(),
        !GateView::initial().started(),
        GateView::initial().epoch == 1,
        g.epoch == 0 ==> g.renewed() == GateView::initial(),
        !g.renewed().ready() || g.renewed().epoch == 0,
        g.renewed().epoch != g.epoch,
{
}

} // verus!
