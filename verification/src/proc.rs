//! CSI processing: grouping the CSI frames of one Wi-Fi frame.

use vstd::prelude::*;

use crate::frame::{Frame, FrameView, Sample};
use crate::params::{ChanSpec, ChanSpecView};

verus! {

/// What a [`WifiCsi`] holds, as a plain value for contracts.
pub struct WifiCsiView {
    /// The CSI values by core, then by spatial stream: 4 rows of 4 slots.
    pub slots: Seq<Seq<Option<Seq<Sample>>>>,
    /// Chanspec.
    pub chan_spec: ChanSpecView,
    /// Received signal strength indicator (dBi).
    pub rssi: i8,
}

impl WifiCsiView {
    /// A grid of 4 rows of 4 slots.
    pub open spec fn is_grid(self) -> bool {
        &&& self.slots.len() == 4
        &&& forall|core: int| 0 <= core < 4 ==> (#[trigger] self.slots[core]).len() == 4
    }

    /// The group that holds nothing yet.
    pub open spec fn fresh(chan_spec: ChanSpecView, rssi: i8) -> WifiCsiView {
        WifiCsiView {
            slots: Seq::new(4, |core: int| Seq::new(4, |spatial: int| None::<Seq<Sample>>)),
            chan_spec,
            rssi,
        }
    }

    /// The group with the values `csi` in the slot of `core` and `spatial`,
    /// in place of what the slot held.
    pub open spec fn with_slot(self, core: int, spatial: int, csi: Seq<Sample>) -> WifiCsiView {
        WifiCsiView {
            slots: self.slots.update(core, self.slots[core].update(spatial, Some(csi))),
            ..self
        }
    }

    /// Whether no slot of the group is populated.
    pub open spec fn is_empty(self) -> bool {
        forall|core: int, spatial: int|
            0 <= core < 4 && 0 <= spatial < 4 ==> (#[trigger] self.slots[core][spatial]) is None
    }

    /// What flushing the group hands out: the group, unless it is empty.
    pub open spec fn flushed(self) -> Option<WifiCsiView> {
        if self.is_empty() {
            None
        } else {
            Some(self)
        }
    }
}

/// The values of a slot as a sequence.
pub open spec fn slot_view(slot: Option<Vec<Sample>>) -> Option<Seq<Sample>> {
    match slot {
        Some(csi) => Some(csi@),
        None => None,
    }
}

/// The group of an optional [`WifiCsi`] as a plain value.
pub open spec fn group_view(group: Option<WifiCsi>) -> Option<WifiCsiView> {
    match group {
        Some(csi) => Some(csi@),
        None => None,
    }
}

/// CSI information for a single Wi-Fi frame.
///
/// Each Wi-Fi frame generates multiple CSI frames, one for each
/// spatial stream. This struct contains all CSI frames for a single
/// Wi-Fi frame.
#[derive(Debug, Clone)]
pub struct WifiCsi {
    frames: [[Option<Vec<Sample>>; 4]; 4],
    /// See the documentation for [`ChanSpec`].
    pub chan_spec: ChanSpec,
    /// Received signal strength indicator (dBi).
    pub rssi: i8,
}

impl View for WifiCsi {
    type V = WifiCsiView;

    closed spec fn view(&self) -> WifiCsiView {
        WifiCsiView {
            slots: Seq::new(
                4,
                |core: int| Seq::new(4, |spatial: int| slot_view(self.frames@[core]@[spatial])),
            ),
            chan_spec: self.chan_spec@,
            rssi: self.rssi,
        }
    }
}

impl WifiCsi {
    /// The view of every group is a grid of 4 rows of 4 slots.
    pub proof fn lemma_view_is_grid(&self)
        ensures
            self@.is_grid(),
    {
    }

    /// Returns the chanspec of the group.
    pub fn chan_spec(&self) -> (chan_spec: ChanSpec)
        ensures
            chan_spec@ == self@.chan_spec,
    {
        self.chan_spec
    }

    /// Returns the received signal strength indicator of the group.
    pub fn rssi(&self) -> (rssi: i8)
        ensures
            rssi == self@.rssi,
    {
        self.rssi
    }

    /// The group for a chanspec and an RSSI that holds nothing yet.
    fn fresh(chan_spec: ChanSpec, rssi: i8) -> (group: WifiCsi)
        ensures
            group@ == WifiCsiView::fresh(chan_spec@, rssi),
    {
        let group = WifiCsi {
            frames: [
                [None, None, None, None],
                [None, None, None, None],
                [None, None, None, None],
                [None, None, None, None],
            ],
            chan_spec,
            rssi,
        };
        assert(group@.slots =~~= WifiCsiView::fresh(chan_spec@, rssi).slots);
        group
    }

    /// Puts CSI values into the slot of a core and a spatial stream.
    fn put(&mut self, core: usize, spatial: usize, csi: Vec<Sample>)
        requires
            core < 4,
            spatial < 4,
        ensures
            final(self)@ == old(self)@.with_slot(core as int, spatial as int, csi@),
    {
        self.frames[core][spatial] = Some(csi);
        assert(final(self)@.slots =~~= old(self)@.with_slot(
            core as int,
            spatial as int,
            csi@,
        ).slots);
    }

    /// Tells whether no slot of the group is populated.
    pub fn is_empty(&self) -> (r: bool)
        ensures
            r == self@.is_empty(),
    {
        let mut core: usize = 0;
        while core < 4
            invariant
                0 <= core <= 4,
                forall|c: int, s: int|
                    0 <= c < core && 0 <= s < 4 ==> (#[trigger] self@.slots[c][s]) is None,
            decreases 4 - core,
        {
            let mut spatial: usize = 0;
            while spatial < 4
                invariant
                    0 <= core < 4,
                    0 <= spatial <= 4,
                    forall|c: int, s: int|
                        0 <= c < core && 0 <= s < 4 ==> (#[trigger] self@.slots[c][s]) is None,
                    forall|s: int|
                        0 <= s < spatial ==> (#[trigger] self@.slots[core as int][s]) is None,
                decreases 4 - spatial,
            {
                if self.frames[core][spatial].is_some() {
                    assert(self@.slots[core as int][spatial as int] is Some);
                    return false;
                }
                spatial += 1;
            }
            core += 1;
        }
        true
    }

    /// Returns the grid of CSI values, by core, then by spatial stream.
    pub fn frames(&self) -> (grid: &[[Option<Vec<Sample>>; 4]; 4])
        ensures
            forall|core: int, spatial: int|
                0 <= core < 4 && 0 <= spatial < 4 ==> slot_view(grid@[core]@[spatial])
                    == #[trigger] self@.slots[core][spatial],
    {
        &self.frames
    }

    /// Returns the CSI values of a core and a spatial stream, if the
    /// group holds any.
    pub fn get(&self, core: usize, spatial: usize) -> (csi: Option<&Vec<Sample>>)
        requires
            core < 4,
            spatial < 4,
        ensures
            match csi {
                Some(csi) => self@.slots[core as int][spatial as int] == Some(csi@),
                None => self@.slots[core as int][spatial as int] is None,
            },
    {
        self.frames[core][spatial].as_ref()
    }
}

/// The state of a [`FrameGrouper`] as a plain value: the group in progress
/// and its sequence number, if any.
pub type GrouperState = Option<(WifiCsiView, u16)>;

/// What an end of the stream hands out of a state: the group in progress,
/// unless there is none or it is empty.
pub open spec fn spec_take(state: GrouperState) -> Option<WifiCsiView> {
    match state {
        Some((group, _)) => group.flushed(),
        None => None,
    }
}

/// Whether a frame carries on the group in progress.
pub open spec fn continues(state: GrouperState, frame: FrameView) -> bool {
    match state {
        Some((_, seq_cnt)) => seq_cnt == frame.seq_cnt,
        None => false,
    }
}

/// What a frame hands out of a state: nothing while the sequence number
/// stays, else what the end of the stream would.
pub open spec fn spec_add_emits(state: GrouperState, frame: FrameView) -> Option<WifiCsiView> {
    if continues(state, frame) {
        None
    } else {
        spec_take(state)
    }
}

/// The state after a frame: the frame's values are in its slot, either of
/// the group in progress, or of a new group that has the frame's
/// chanspec, RSSI and sequence number.
pub open spec fn spec_add_state(state: GrouperState, frame: FrameView) -> GrouperState {
    let group = match state {
        Some((group, seq_cnt)) if seq_cnt == frame.seq_cnt => group,
        _ => WifiCsiView::fresh(frame.chan_spec, frame.rssi),
    };
    Some((group.with_slot(frame.core as int, frame.spatial as int, frame.csi), frame.seq_cnt))
}

/// Groups CSI frames by Wi-Fi frame.
///
/// Frames are handed to [`FrameGrouper::add`] one by one. A group ends
/// when the sequence number changes, so the frames of one Wi-Fi frame
/// must follow each other. After the last frame, [`FrameGrouper::take`]
/// hands out the group that is still in progress.
#[derive(Debug, Clone)]
pub struct FrameGrouper {
    state: Option<(WifiCsi, u16)>,
}

impl View for FrameGrouper {
    type V = GrouperState;

    closed spec fn view(&self) -> GrouperState {
        match self.state {
            Some((group, seq_cnt)) => Some((group@, seq_cnt)),
            None => None,
        }
    }
}

/// Hands out a group, unless it is empty.
fn flush(group: WifiCsi) -> (r: Option<WifiCsi>)
    ensures
        group_view(r) == group@.flushed(),
{
    if group.is_empty() {
        None
    } else {
        Some(group)
    }
}

impl FrameGrouper {
    /// The group in progress, if there is one, is a grid of 4 rows of
    /// 4 slots.
    pub proof fn lemma_view_is_grid(&self)
        ensures
            self@ is Some ==> group_of(self@).is_grid(),
    {
    }

    /// Creates a new `FrameGrouper`, with no group in progress.
    pub fn new() -> (grouper: Self)
        ensures
            grouper@ is None,
    {
        FrameGrouper { state: None }
    }

    /// Returns the sequence number of the group in progress.
    pub fn seq_cnt(&self) -> (seq_cnt: Option<u16>)
        ensures
            seq_cnt == (match self@ {
                Some((_, seq_cnt)) => Some(seq_cnt),
                None => None,
            }),
    {
        match &self.state {
            Some((_, seq_cnt)) => Some(*seq_cnt),
            None => None,
        }
    }

    /// Adds a CSI frame to the grouper.
    ///
    /// Returns `Some` if the frame starts a new group and the group
    /// before it held anything.
    pub fn add(&mut self, frame: Frame) -> (r: Option<WifiCsi>)
        requires
            frame.fits_grid(),
        ensures
            final(self)@ == spec_add_state(old(self)@, frame@),
            group_view(r) == spec_add_emits(old(self)@, frame@),
    {
        let seq_cnt = frame.seq_cnt;
        let core = frame.core as usize;
        let spatial = frame.spatial as usize;
        let (mut group, ret) = match self.state.take() {
            Some((group, current)) => {
                if current == seq_cnt {
                    (group, None)
                } else {
                    (WifiCsi::fresh(frame.chan_spec, frame.rssi), flush(group))
                }
            },
            None => (WifiCsi::fresh(frame.chan_spec, frame.rssi), None),
        };
        group.put(core, spatial, frame.csi);
        self.state = Some((group, seq_cnt));
        ret
    }

    /// Takes the current group, provided it is not empty.
    ///
    /// To ensure that the last group is yielded, this method should be
    /// called after the stream of CSI frames has ended.
    pub fn take(&mut self) -> (r: Option<WifiCsi>)
        ensures
            final(self)@ is None,
            group_view(r) == spec_take(old(self)@),
    {
        match self.state.take() {
            Some((group, _)) => flush(group),
            None => None,
        }
    }
}

impl Default for FrameGrouper {
    fn default() -> (grouper: Self)
        ensures
            grouper@ is None,
    {
        FrameGrouper::new()
    }
}

/// The core of the antenna on the right of the array.
pub const RIGHT_ANTENNA: usize = 0;

/// The core of the antenna in the middle of the array.
pub const CENTER_ANTENNA: usize = 3;

/// The core of the antenna on the left of the array.
pub const LEFT_ANTENNA: usize = 1;

/// The CSI values that an angle of arrival is estimated from: those of
/// the first spatial stream at the right, the center and the left
/// antenna, in this order. There are none unless all three are there.
pub open spec fn spec_aoa_inputs(group: WifiCsiView) -> Option<
    (Seq<Sample>, Seq<Sample>, Seq<Sample>),
> {
    match (
        group.slots[RIGHT_ANTENNA as int][0],
        group.slots[CENTER_ANTENNA as int][0],
        group.slots[LEFT_ANTENNA as int][0],
    ) {
        (Some(right), Some(center), Some(left)) => Some((right, center, left)),
        _ => None,
    }
}

/// The CSI values that times of flight are estimated from: those of the
/// first spatial stream at each of the cores below `cores` that has any,
/// in ascending order of the cores.
pub open spec fn spec_tof_inputs(group: WifiCsiView, cores: int) -> Seq<Seq<Sample>>
    decreases cores,
{
    if cores <= 0 {
        Seq::empty()
    } else {
        let before = spec_tof_inputs(group, cores - 1);
        match group.slots[cores - 1][0] {
            Some(csi) => before.push(csi),
            None => before,
        }
    }
}

/// The sequences that a vector of borrowed CSI values holds.
pub open spec fn views_of(inputs: Seq<&Vec<Sample>>) -> Seq<Seq<Sample>> {
    Seq::new(inputs.len(), |i: int| inputs[i]@)
}

/// Picks the CSI values that an angle of arrival is estimated from: the
/// first spatial stream of the right, the center and the left antenna.
///
/// Returns `None` if any of the three is missing.
pub fn aoa_inputs(csi: &WifiCsi) -> (r: Option<(&Vec<Sample>, &Vec<Sample>, &Vec<Sample>)>)
    ensures
        match r {
            Some((right, center, left)) => spec_aoa_inputs(csi@) == Some(
                (right@, center@, left@),
            ),
            None => spec_aoa_inputs(csi@) is None,
        },
{
    let right = match csi.get(RIGHT_ANTENNA, 0) {
        Some(right) => right,
        None => return None,
    };
    let center = match csi.get(CENTER_ANTENNA, 0) {
        Some(center) => center,
        None => return None,
    };
    let left = match csi.get(LEFT_ANTENNA, 0) {
        Some(left) => left,
        None => return None,
    };
    Some((right, center, left))
}

/// Picks the CSI values that times of flight are estimated from: the
/// first spatial stream of every core that has any, in ascending order
/// of the cores.
pub fn tof_inputs(csi: &WifiCsi) -> (r: Vec<&Vec<Sample>>)
    ensures
        views_of(r@) == spec_tof_inputs(csi@, 4),
{
    let mut inputs: Vec<&Vec<Sample>> = Vec::new();
    let mut core: usize = 0;
    while core < 4
        invariant
            0 <= core <= 4,
            views_of(inputs@) == spec_tof_inputs(csi@, core as int),
        decreases 4 - core,
    {
        let ghost before = inputs@;
        match csi.get(core, 0) {
            Some(buf) => {
                inputs.push(buf);
                assert(views_of(inputs@) =~= views_of(before).push(buf@));
            },
            None => {},
        }
        core += 1;
    }
    inputs
}

/// The group in progress of a state that has one.
pub open spec fn group_of(state: GrouperState) -> WifiCsiView
    recommends
        state is Some,
{
    match state {
        Some((group, _)) => group,
        None => arbitrary(),
    }
}

/// After any frame, the end of the stream hands out a group, and that
/// group holds the frame's values in the frame's slot: a group in
/// progress is never empty.
pub proof fn lemma_take_after_add(state: GrouperState, frame: FrameView)
    requires
        frame.core < 4,
        frame.spatial < 4,
        state is Some ==> group_of(state).is_grid(),
    ensures
        spec_take(spec_add_state(state, frame)) == Some(group_of(spec_add_state(state, frame))),
        group_of(spec_add_state(state, frame)).slots[frame.core as int][frame.spatial as int]
            == Some(frame.csi),
        group_of(spec_add_state(state, frame)).is_grid(),
{
    let group = group_of(spec_add_state(state, frame));
    assert(WifiCsiView::fresh(frame.chan_spec, frame.rssi).is_grid());
    assert(group.slots[frame.core as int][frame.spatial as int] == Some(frame.csi));
    assert(!group.is_empty());
}

/// A frame changes no slot but its own: a frame that carries on the
/// group in progress leaves every other slot as it was, and a frame that
/// starts a group leaves every other slot unpopulated.
pub proof fn lemma_add_keeps_other_slots(
    state: GrouperState,
    frame: FrameView,
    core: int,
    spatial: int,
)
    requires
        frame.core < 4,
        frame.spatial < 4,
        0 <= core < 4,
        0 <= spatial < 4,
        core != frame.core || spatial != frame.spatial,
        state is Some ==> group_of(state).is_grid(),
    ensures
        continues(state, frame) ==> group_of(spec_add_state(state, frame)).slots[core][spatial]
            == group_of(state).slots[core][spatial],
        !continues(state, frame) ==> group_of(
            spec_add_state(state, frame),
        ).slots[core][spatial] is None,
{
}

} // verus!
