//! Client-side tracking of in-flight requests.
//!
//! The tracker allocates request ids, records each request the client
//! manages to submit, moves every entry to exactly one terminal status, and
//! sweeps all survivors to `Failed` when the link drops. The embedding
//! client holds it behind the same lock as the connected-state check, so no
//! request can slip in after a disconnection sweep has begun; the `sealed`
//! flag records that the backing handler is gone for good.
use vstd::prelude::*;

verus! {

/// Where one tracked request stands.
#[derive(Debug, Clone, Copy, PartialEq, Eq, Structural)]
pub enum RequestStatus {
    /// Recorded, but the write has not been confirmed.
    Sending,
    /// The write was confirmed; the answer is outstanding.
    Sent,
    /// Terminal: a response payload arrived.
    ResponseReceived,
    /// Terminal: the server acknowledged without payload.
    Acked,
    /// Terminal: the server rejected the request.
    Rejected,
    /// Terminal: the link dropped while the request was in flight.
    Failed,
    /// Terminal: the transport abandoned the write.
    Aborted,
}

/// The terminal status that resolving a request assigns.
#[derive(Debug, Clone, Copy, PartialEq, Eq, Structural)]
pub enum RequestOutcome {
    /// A response payload arrived.
    Response,
    /// An acknowledgement arrived.
    Ack,
    /// A rejection arrived.
    Reject,
    /// The request was failed locally.
    Fail,
    /// The transport abandoned the write.
    Abort,
}

/// Whether a status is terminal: a request in a terminal status never moves
/// again, so each request yields at most one outcome.
pub open spec fn is_terminal(s: RequestStatus) -> bool {
    !(s is Sending || s is Sent)
}

/// The terminal status that an outcome stands for.
pub open spec fn status_of_outcome(o: RequestOutcome) -> RequestStatus {
    match o {
        RequestOutcome::Response => RequestStatus::ResponseReceived,
        RequestOutcome::Ack => RequestStatus::Acked,
        RequestOutcome::Reject => RequestStatus::Rejected,
        RequestOutcome::Fail => RequestStatus::Failed,
        RequestOutcome::Abort => RequestStatus::Aborted,
    }
}

/// Records in-flight requests of one client.
///
/// Request ids count up from 1; the entry of request `id`, when one was
/// recorded, sits at index `id - 1`. A reserved id whose submission never
/// completed has no entry.
#[derive(Debug)]
pub struct PendingRequestTracker {
    /// The next id to hand out; strictly greater than every id handed out.
    pub next_id: u64,
    /// Status of request `i + 1` at index `i`; `None` if never recorded.
    pub entries: Vec<Option<RequestStatus>>,
    /// Set once the backing handler is gone; no entry is added afterwards.
    pub sealed: bool,
}

/// Mathematical model of a [`PendingRequestTracker`].
pub struct TrackerView {
    pub next_id: u64,
    pub entries: Seq<Option<RequestStatus>>,
    pub sealed: bool,
}

impl View for PendingRequestTracker {
    type V = TrackerView;

    open spec fn view(&self) -> TrackerView {
        TrackerView { next_id: self.next_id, entries: self.entries@, sealed: self.sealed }
    }
}

impl TrackerView {
    /// Ids start at 1 and every recorded entry lies below the next id.
    pub open spec fn wf(&self) -> bool {
        1 <= self.next_id && self.entries.len() < self.next_id
    }

    /// The status of request `id`, if one was recorded.
    pub open spec fn status(&self, id: u64) -> Option<RequestStatus> {
        if 1 <= id && id <= self.entries.len() {
            self.entries[id - 1]
        } else {
            None
        }
    }
}

/// What reserving an id does: it hands out `next_id` and bumps it.
pub open spec fn spec_reserve(t: TrackerView) -> (TrackerView, u64) {
    (
        TrackerView { next_id: (t.next_id + 1) as u64, entries: t.entries, sealed: t.sealed },
        t.next_id,
    )
}

/// What resolving a request does: if `id` has a non-terminal entry, that
/// entry moves to the outcome's terminal status and the resolution counts;
/// otherwise nothing changes. A request therefore resolves at most once.
pub open spec fn spec_resolve(t: TrackerView, id: u64, o: RequestOutcome) -> (TrackerView, bool) {
    if t.status(id) matches Some(s) && !is_terminal(s) {
        (
            TrackerView {
                next_id: t.next_id,
                entries: t.entries.update(id - 1, Some(status_of_outcome(o))),
                sealed: t.sealed,
            },
            true,
        )
    } else {
        (t, false)
    }
}

/// The failure sweep, read off entry by entry from index `i` on: one pair
/// `(id, had_been_sent)` for every non-terminal entry, in id order.
pub open spec fn spec_sweep(s: Seq<Option<RequestStatus>>, i: int) -> Seq<(u64, bool)>
    decreases s.len() - i,
{
    if i < 0 || i >= s.len() {
        Seq::empty()
    } else {
        let rest = spec_sweep(s, i + 1);
        match s[i] {
            Some(st) => if !is_terminal(st) {
                seq![(((i + 1) as u64), st is Sent)] + rest
            } else {
                rest
            },
            None => rest,
        }
    }
}

/// An entry after the failure sweep: non-terminal entries fail, the rest
/// keep their status.
pub open spec fn spec_fail_entry(e: Option<RequestStatus>) -> Option<RequestStatus> {
    match e {
        Some(s) => if is_terminal(s) {
            Some(s)
        } else {
            Some(RequestStatus::Failed)
        },
        None => e,
    }
}

impl PendingRequestTracker {
    /// Ids start at 1 and every recorded entry lies below the next id.
    pub open spec fn wf(&self) -> bool {
        self@.wf()
    }

    /// A fresh tracker: no entries, ids to be handed out from 1.
    pub fn new() -> (r: Self)
        ensures
            r.wf(),
            r@.next_id == 1,
            r@.entries =~= Seq::<Option<RequestStatus>>::empty(),
            !r@.sealed,
    {
        PendingRequestTracker { next_id: 1, entries: Vec::new(), sealed: false }
    }

    /// Hand out the next request id.
    ///
    /// Ids handed out by one tracker are strictly increasing, so they are
    /// unique within the client's lifetime.
    pub fn reserve_id(&mut self) -> (id: u64)
        requires
            old(self).wf(),
            old(self)@.next_id < u64::MAX,
        ensures
            final(self).wf(),
            (final(self)@, id) == spec_reserve(old(self)@),
            id == old(self)@.next_id,
            final(self)@.next_id == old(self)@.next_id + 1,
            final(self)@.entries == old(self)@.entries,
            final(self)@.sealed == old(self)@.sealed,
    {
        let id = self.next_id;
        self.next_id = self.next_id + 1;
        id
    }

    /// Record a reserved id as an in-flight request.
    ///
    /// The id must have been reserved, must be newer than every recorded
    /// entry, and the tracker must not be sealed: once the backing handler
    /// is gone no request can be recorded, which is what lets the failure
    /// sweep cover every request there will ever be.
    pub fn add_request(&mut self, id: u64)
        requires
            old(self).wf(),
            !old(self)@.sealed,
            old(self)@.entries.len() < id,
            id < old(self)@.next_id,
            id <= usize::MAX as u64,
        ensures
            final(self).wf(),
            final(self)@.next_id == old(self)@.next_id,
            final(self)@.sealed == old(self)@.sealed,
            final(self)@.entries.len() == id,
            final(self)@.status(id) == Some(RequestStatus::Sending),
            forall|j: int|
                0 <= j < id - 1 ==> final(self)@.entries[j] == (if j < old(self)@.entries.len() {
                    old(self)@.entries[j]
                } else {
                    None::<RequestStatus>
                }),
    {
        let target: usize = (id - 1) as usize;
        while self.entries.len() < target
            invariant
                target == id - 1,
                old(self)@.entries.len() <= self.entries@.len() <= target,
                self.next_id == old(self)@.next_id,
                self.sealed == old(self)@.sealed,
                forall|j: int|
                    0 <= j < self.entries@.len() ==> self.entries@[j] == (if j < old(
                        self)@.entries.len() {
                        old(self)@.entries[j]
                    } else {
                        None::<RequestStatus>
                    }),
            decreases target - self.entries@.len(),
        {
            self.entries.push(None);
        }
        self.entries.push(Some(RequestStatus::Sending));
    }

    /// Confirm that the transport wrote request `id`.
    ///
    /// Moves `Sending` to `Sent`; anything else is left alone.
    pub fn mark_sent(&mut self, id: u64)
        requires
            old(self).wf(),
        ensures
            final(self).wf(),
            final(self)@.next_id == old(self)@.next_id,
            final(self)@.sealed == old(self)@.sealed,
            final(self)@.entries.len() == old(self)@.entries.len(),
            old(self)@.status(id) == Some(RequestStatus::Sending) ==> final(self)@.entries
                =~= old(self)@.entries.update(id - 1, Some(RequestStatus::Sent)),
            old(self)@.status(id) != Some(RequestStatus::Sending) ==> final(self)@.entries
                =~= old(self)@.entries,
    {
        if 1 <= id && id <= self.entries.len() as u64 {
            let idx: usize = (id - 1) as usize;
            let cur = self.entries[idx];
            if let Some(RequestStatus::Sending) = cur {
                self.entries[idx] = Some(RequestStatus::Sent);
            }
        }
    }

    /// Resolve request `id` with a terminal outcome.
    ///
    /// Returns whether this call resolved it: true exactly when the request
    /// was recorded and still pending. A request already terminal is left
    /// untouched, so each request resolves at most once.
    pub fn resolve(&mut self, id: u64, outcome: RequestOutcome) -> (hit: bool)
        requires
            old(self).wf(),
        ensures
            final(self).wf(),
            ({
                let (t, h) = spec_resolve(old(self)@, id, outcome);
                final(self)@.next_id == t.next_id && final(self)@.sealed == t.sealed
                    && final(self)@.entries =~= t.entries && hit == h
            }),
    {
        if 1 <= id && id <= self.entries.len() as u64 {
            let idx: usize = (id - 1) as usize;
            let cur = self.entries[idx];
            match cur {
                Some(RequestStatus::Sending) | Some(RequestStatus::Sent) => {
                    self.entries[idx] = Some(status_of_outcome_exec(outcome));
                    true
                }
                _ => false,
            }
        } else {
            false
        }
    }

    /// Fail every request still in flight.
    ///
    /// Returns one `(id, had_been_sent)` pair per swept request, in id
    /// order: exactly the requests that were pending, each of which now
    /// reads `Failed`. Requests already terminal keep their outcome.
    pub fn sweep_failures(&mut self) -> (swept: Vec<(u64, bool)>)
        requires
            old(self).wf(),
        ensures
            final(self).wf(),
            final(self)@.next_id == old(self)@.next_id,
            final(self)@.sealed == old(self)@.sealed,
            final(self)@.entries.len() == old(self)@.entries.len(),
            forall|j: int|
                0 <= j < old(self)@.entries.len() ==> final(self)@.entries[j] == spec_fail_entry(
                    old(self)@.entries[j],
                ),
            swept@ == spec_sweep(old(self)@.entries, 0),
    {
        let ghost s = self.entries@;
        let mut swept: Vec<(u64, bool)> = Vec::new();
        let mut i: usize = 0;
        while i < self.entries.len()
            invariant
                self.entries@.len() == s.len(),
                self.next_id == old(self)@.next_id,
                self.sealed == old(self)@.sealed,
                self.wf(),
                i <= s.len(),
                forall|j: int| i <= j < s.len() ==> self.entries@[j] == s[j],
                forall|j: int| 0 <= j < i ==> self.entries@[j] == spec_fail_entry(s[j]),
                swept@ + spec_sweep(s, i as int) == spec_sweep(s, 0),
            decreases self.entries@.len() - i,
        {
            let ghost prev = swept@;
            let cur = self.entries[i];
            match cur {
                Some(RequestStatus::Sending) => {
                    self.entries[i] = Some(RequestStatus::Failed);
                    swept.push((i as u64 + 1, false));
                    proof {
                        let x = (((i + 1) as u64), false);
                        assert(spec_sweep(s, i as int) == seq![x] + spec_sweep(s, i as int + 1));
                        assert(swept@ =~= prev + seq![x]);
                        assert((prev + seq![x]) + spec_sweep(s, i as int + 1) =~= prev + (seq![x]
                            + spec_sweep(s, i as int + 1)));
                    }
                }
                Some(RequestStatus::Sent) => {
                    self.entries[i] = Some(RequestStatus::Failed);
                    swept.push((i as u64 + 1, true));
                    proof {
                        let x = (((i + 1) as u64), true);
                        assert(spec_sweep(s, i as int) == seq![x] + spec_sweep(s, i as int + 1));
                        assert(swept@ =~= prev + seq![x]);
                        assert((prev + seq![x]) + spec_sweep(s, i as int + 1) =~= prev + (seq![x]
                            + spec_sweep(s, i as int + 1)));
                    }
                }
                _ => {
                    proof {
                        assert(spec_sweep(s, i as int) == spec_sweep(s, i as int + 1));
                    }
                }
            }
            i = i + 1;
        }
        proof {
            assert(swept@ + spec_sweep(s, s.len() as int) =~= swept@);
        }
        swept
    }

    /// Seal the tracker: the backing handler is gone, so no request will
    /// ever be recorded again.
    pub fn seal(&mut self)
        ensures
            final(self)@.sealed,
            final(self)@.next_id == old(self)@.next_id,
            final(self)@.entries == old(self)@.entries,
    {
        self.sealed = true;
    }

    /// Fail every pending request and seal the tracker.
    ///
    /// Called exactly once, when the backing handler is dropped: afterwards
    /// every entry is terminal and none can be added.
    pub fn fail_all(&mut self) -> (swept: Vec<(u64, bool)>)
        requires
            old(self).wf(),
        ensures
            final(self).wf(),
            final(self)@.sealed,
            final(self)@.next_id == old(self)@.next_id,
            final(self)@.entries.len() == old(self)@.entries.len(),
            forall|j: int|
                0 <= j < old(self)@.entries.len() ==> final(self)@.entries[j] == spec_fail_entry(
                    old(self)@.entries[j],
                ),
            swept@ == spec_sweep(old(self)@.entries, 0),
    {
        let swept = self.sweep_failures();
        self.seal();
        swept
    }
}

/// Executable twin of [`status_of_outcome`].
pub fn status_of_outcome_exec(o: RequestOutcome) -> (r: RequestStatus)
    ensures
        r == status_of_outcome(o),
{
    match o {
        RequestOutcome::Response => RequestStatus::ResponseReceived,
        RequestOutcome::Ack => RequestStatus::Acked,
        RequestOutcome::Reject => RequestStatus::Rejected,
        RequestOutcome::Fail => RequestStatus::Failed,
        RequestOutcome::Abort => RequestStatus::Aborted,
    }
}

/// Ids a single tracker hands out are strictly increasing: of two
/// consecutive reservations, the second id is strictly the larger.
pub proof fn lemma_request_ids_strictly_increasing(t: TrackerView)
    requires
        t.wf(),
        t.next_id + 1 < u64::MAX,
    ensures
        ({
            let (t1, id1) = spec_reserve(t);
            let (t2, id2) = spec_reserve(t1);
            id1 < id2
        }),
{
}

/// Each request resolves at most once: after a resolution counted, any
/// further attempt on the same id changes nothing and does not count.
pub proof fn lemma_request_exclusivity(
    t: TrackerView,
    id: u64,
    first: RequestOutcome,
    second: RequestOutcome,
)
    requires
        t.wf(),
    ensures
        ({
            let (t1, hit1) = spec_resolve(t, id, first);
            let (t2, hit2) = spec_resolve(t1, id, second);
            hit1 ==> (!hit2 && t2 == t1)
        }),
{
}

/// The failure sweep never lists a request whose entry is terminal or
/// absent: only requests still in flight are failed.
pub proof fn lemma_sweep_skips_terminal(s: Seq<Option<RequestStatus>>, i: int, id: u64)
    requires
        s.len() <= u64::MAX,
        !(1 <= id && id <= s.len() && (s[id - 1] matches Some(st) && !is_terminal(st))),
    ensures
        forall|k: int| 0 <= k < spec_sweep(s, i).len() ==> (#[trigger] spec_sweep(s, i)[k]).0
            != id,
    decreases s.len() - i,
{
    if 0 <= i < s.len() {
        lemma_sweep_skips_terminal(s, i + 1, id);
        match s[i] {
            Some(st) => {
                if !is_terminal(st) {
                    let head = (((i + 1) as u64), st is Sent);
                    assert(spec_sweep(s, i) == seq![head] + spec_sweep(s, i + 1));
                    assert(head.0 == i + 1);
                    assert(head.0 != id);
                }
            },
            None => {},
        }
    }
}

/// A request that already resolved is not failed by a later sweep: its
/// single outcome stands.
pub proof fn lemma_resolve_then_sweep_misses(t: TrackerView, id: u64, o: RequestOutcome)
    requires
        t.wf(),
    ensures
        ({
            let (t1, hit) = spec_resolve(t, id, o);
            hit ==> forall|k: int|
                0 <= k < spec_sweep(t1.entries, 0).len() ==> (#[trigger] spec_sweep(
                    t1.entries,
                    0,
                )[k]).0 != id
        }),
{
    let (t1, hit) = spec_resolve(t, id, o);
    if hit {
        lemma_sweep_skips_terminal(t1.entries, 0, id);
    }
}

/// After the failure sweep every entry is terminal, so no request resolves
/// again: the sweep's outcomes are the last word.
pub proof fn lemma_sweep_then_resolve_misses(t: TrackerView, id: u64, o: RequestOutcome)
    requires
        t.wf(),
    ensures
        ({
            let swept = TrackerView {
                next_id: t.next_id,
                entries: t.entries.map_values(|e: Option<RequestStatus>| spec_fail_entry(e)),
                sealed: true,
            };
            !spec_resolve(swept, id, o).1
        }),
{
}

} // verus!
