//! The snapshot store: the single current result bundle, replaced whole once
//! per frame and read by many consumers. A ghost history of publish
//! timestamps carries the store's one ordering guarantee: timestamps never
//! decrease across publishes, so no read ever rolls back behind an earlier
//! publish.

use crate::config::ConfigStore;
use crate::frame::Frame;
use vstd::prelude::*;

verus! {

/// One reported target: an optional resolved identifier, plus the target's
/// structured attributes carried opaquely as their JSON rendering.
#[derive(Clone)]
pub struct Tag {
    /// The resolved identifier, when the detected shape mapped to one.
    pub id: Option<u32>,
    /// The target's structured attributes, as one JSON value.
    pub json: String,
}

/// The immutable result bundle of one processed frame.
#[derive(Clone)]
pub struct Data {
    /// Wall time spent preprocessing, detecting and encoding, in microseconds.
    pub latency_us: Option<u64>,
    /// Smoothed capture rate, in milli-frames per second.
    pub fps_milli: Option<u32>,
    /// All reported targets, in detector order.
    pub tags: Vec<Tag>,
    /// Reduced preview of the processed frame.
    pub frame: Option<Frame>,
    /// Reduced occupancy mask.
    pub mask: Option<Frame>,
    /// Capture timestamp, in milliseconds since the epoch.
    pub time: u64,
}

impl Data {
    /// Every image the bundle carries satisfies its shape invariant.
    pub open spec fn wf(self) -> bool {
        &&& (self.frame matches Some(f) ==> f.wf())
        &&& (self.mask matches Some(m) ==> m.wf())
    }

    /// An empty bundle, as held before any frame was processed.
    pub fn empty(time: u64) -> (r: Data)
        ensures
            r.wf(),
            r.latency_us is None,
            r.fps_milli is None,
            r.tags@.len() == 0,
            r.frame is None,
            r.mask is None,
            r.time == time,
    {
        Data { latency_us: None, fps_milli: None, tags: Vec::new(), frame: None, mask: None, time }
    }

    /// The processing latency in whole milliseconds, when one is known.
    pub fn ms(&self) -> (r: Option<u64>)
        ensures
            self.latency_us matches Some(us) ==> r == Some(us / 1000),
            self.latency_us is None ==> r is None,
    {
        match self.latency_us {
            Some(us) => Some(us / 1000),
            None => None,
        }
    }
}

/// A sequence that never decreases.
pub open spec fn non_decreasing(s: Seq<u64>) -> bool {
    forall|i: int, j: int| 0 <= i <= j < s.len() ==> s[i] <= s[j]
}

/// Holds exactly one current snapshot. Publishing replaces it whole; readers
/// only ever see a complete bundle, and never one older than any publish they
/// could already observe.
pub struct SnapshotStore {
    current: Option<Data>,
    /// The timestamps of every publish so far, in publish order.
    history: Ghost<Seq<u64>>,
}

impl SnapshotStore {
    /// The timestamps of every publish so far, in publish order.
    pub closed spec fn times(&self) -> Seq<u64> {
        self.history@
    }

    /// The snapshot a reader sees now.
    pub closed spec fn view_current(&self) -> Option<Data> {
        self.current
    }

    /// The store's invariant: a current snapshot exists exactly when
    /// something was published, it is the latest publish, and the publish
    /// timestamps never decrease.
    pub closed spec fn wf(&self) -> bool {
        &&& (self.current is Some <==> self.times().len() > 0)
        &&& (self.current matches Some(d) ==> d.wf() && self.times().len() > 0 && d.time
            == self.times().last())
        &&& non_decreasing(self.times())
    }

    /// An empty store: nothing published yet.
    pub fn new() -> (r: SnapshotStore)
        ensures
            r.wf(),
            r.view_current() is None,
            r.times().len() == 0,
    {
        SnapshotStore { current: None, history: Ghost(Seq::empty()) }
    }

    /// Replaces the current snapshot, whole. The caller supplies timestamps
    /// in non-decreasing order, as a monotone capture clock does.
    pub fn publish(&mut self, d: Data)
        requires
            old(self).wf(),
            d.wf(),
            old(self).view_current() matches Some(c) ==> d.time >= c.time,
        ensures
            final(self).wf(),
            final(self).view_current() == Some(d),
            final(self).times() == old(self).times().push(d.time),
    {
        proof {
            self.history@ = self.history@.push(d.time);
        }
        self.current = Some(d);
    }

    /// The latest published snapshot, or nothing before the first publish.
    pub fn current(&self) -> (r: &Option<Data>)
        requires
            self.wf(),
        ensures
            r == &self.view_current(),
            self.times().len() == 0 ==> (*r) is None,
            (*r) matches Some(d) ==> d.wf() && d.time == self.times().last(),
    {
        &self.current
    }
}

/// Monotonic visibility: whatever a reader sees now carries a timestamp at
/// least as late as that of any publish that already happened.
pub proof fn lemma_monotonic_visibility(s: &SnapshotStore, i: int)
    requires
        s.wf(),
        0 <= i < s.times().len(),
    ensures
        s.view_current() matches Some(d) && d.time >= s.times()[i],
{
}

/// The shared context handed to every task at startup: the snapshot store
/// the capture loop writes, and the detector configuration the operator
/// tunes.
pub struct St {
    /// The detector's tunable configuration.
    pub detector: ConfigStore,
    /// The current result snapshot.
    pub data: SnapshotStore,
}

impl St {
    /// Builds the context from its two halves.
    pub fn new(detector: ConfigStore, data: SnapshotStore) -> (r: St)
        ensures
            r.detector == detector,
            r.data == data,
    {
        St { detector, data }
    }

    /// Read access to the detector configuration.
    pub fn detector(&self) -> (r: &ConfigStore)
        ensures
            r == &self.detector,
    {
        &self.detector
    }

    /// Read access to the snapshot store.
    pub fn data(&self) -> (r: &SnapshotStore)
        ensures
            r == &self.data,
    {
        &self.data
    }

}

/// Assembles the result bundle of one processed frame and publishes it: the
/// targets, the reduced preview and mask, the measured latency, the smoothed
/// rate, and the capture timestamp.
pub fn update(
    st: &mut St,
    tags: Vec<Tag>,
    latency_us: u64,
    fps_milli: u32,
    frame: Frame,
    mask: Frame,
    time: u64,
)
    requires
        old(st).data.wf(),
        frame.wf(),
        mask.wf(),
        old(st).data.view_current() matches Some(c) ==> time >= c.time,
    ensures
        final(st).data.wf(),
        final(st).data.view_current() == Some(
            Data {
                latency_us: Some(latency_us),
                fps_milli: Some(fps_milli),
                tags,
                frame: Some(frame),
                mask: Some(mask),
                time,
            },
        ),
        final(st).data.times() == old(st).data.times().push(time),
        final(st).detector == old(st).detector,
{
    let d = Data {
        latency_us: Some(latency_us),
        fps_milli: Some(fps_milli),
        tags,
        frame: Some(frame),
        mask: Some(mask),
        time,
    };
    st.data.publish(d);
}

} // verus!
