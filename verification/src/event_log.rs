//! The frame event log: an append-only, timestamp-ordered record of
//! mid-frame state changes, consumed once per frame by the video renderer.

use vstd::prelude::*;

verus! {

/// One recorded state change: the frame-relative cycle at which it took
/// effect, and the encoded new state.
#[derive(Clone, Copy, PartialEq, Eq, Structural, Debug)]
pub struct FrameEvent {
    pub ts: u32,
    pub data: u8,
}

/// Timestamps never decrease along the log.
pub open spec fn times_sorted(s: Seq<FrameEvent>) -> bool {
    forall|i: int, j: int| 0 <= i <= j < s.len() ==> #[trigger] s[i].ts <= #[trigger] s[j].ts
}

/// Every recorded timestamp is at or before `ts`.
pub open spec fn times_bounded(s: Seq<FrameEvent>, ts: u32) -> bool {
    forall|i: int| 0 <= i < s.len() ==> #[trigger] s[i].ts <= ts
}

/// An append-only sequence of [`FrameEvent`]s whose timestamps are
/// non-decreasing.  It is cleared entirely at the start of each frame.
#[derive(Clone, Debug)]
pub struct EventLog {
    entries: Vec<FrameEvent>,
}

impl View for EventLog {
    type V = Seq<FrameEvent>;

    closed spec fn view(&self) -> Seq<FrameEvent> {
        self.entries@
    }
}

impl EventLog {
    pub open spec fn wf(&self) -> bool {
        times_sorted(self@)
    }

    pub fn new() -> (log: EventLog)
        ensures
            log.wf(),
            log@ == Seq::<FrameEvent>::empty(),
    {
        let log = EventLog { entries: Vec::new() };
        proof {
            assert(log@ =~= Seq::<FrameEvent>::empty());
        }
        log
    }

    /// Appends one change.  The new entry must not predate the entries
    /// already recorded.
    pub fn push(&mut self, ts: u32, data: u8)
        requires
            old(self).wf(),
            times_bounded(old(self)@, ts),
        ensures
            final(self).wf(),
            final(self)@ == old(self)@.push(FrameEvent { ts, data }),
    {
        self.entries.push(FrameEvent { ts, data });
    }

    /// Drops every entry, making the log ready for a new frame.
    pub fn clear(&mut self)
        ensures
            final(self).wf(),
            final(self)@ == Seq::<FrameEvent>::empty(),
    {
        self.entries.clear();
        proof {
            assert(self@ =~= Seq::<FrameEvent>::empty());
        }
    }

    pub fn len(&self) -> (n: usize)
        ensures
            n == self@.len(),
    {
        self.entries.len()
    }

    pub fn is_empty(&self) -> (empty: bool)
        ensures
            empty == (self@.len() == 0),
    {
        self.entries.len() == 0
    }

    /// Reads one recorded change; the renderer drains the log this way.
    pub fn entry(&self, i: usize) -> (event: FrameEvent)
        requires
            i < self@.len(),
        ensures
            event == self@[i as int],
    {
        self.entries[i]
    }
}

/// Non-decreasing timestamps, stated pairwise: any entry recorded earlier
/// in a frame carries a timestamp at or before any entry recorded later.
pub proof fn lemma_log_times_nondecreasing(log: &EventLog, i: int, j: int)
    requires
        log.wf(),
        0 <= i <= j < log@.len(),
    ensures
        log@[i].ts <= log@[j].ts,
{
}

} // verus!
