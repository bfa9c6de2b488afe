//! What a session knows of its progress: the schemas announced so far, the
//! position received, the position applied, and when feedback last went out.

use std::collections::HashMap;
use std::time::Instant;
use vstd::prelude::*;
use crate::protocol::messages::RelationInfo;
use crate::protocol::messages::RelationInfoView;
use crate::utils::binary::Oid;

verus! {

/// `std::time::Instant`: a reading of the monotonic clock, carried through
/// unopened.
#[verifier::external_type_specification]
#[verifier::external_body]
pub struct ExInstant(Instant);

/// `Instant::now`: a reading of the monotonic clock. Nothing is claimed of
/// what it reads.
#[verifier::external_body]
fn monotonic_now() -> Instant {
    Instant::now()
}

/// `Instant::elapsed`, in nanoseconds (`Duration::as_nanos`): the time that
/// has passed since `earlier` was read. Nothing is claimed of how much that
/// is.
#[verifier::external_body]
fn nanoseconds_since(earlier: &Instant) -> u128 {
    earlier.elapsed().as_nanos()
}

/// Nanoseconds in a second.
pub const NANOSECONDS_PER_SECOND: u128 = 1_000_000_000;

/// Whether feedback is due: it is once at least `interval_secs` seconds have
/// passed since the last feedback.
pub open spec fn spec_feedback_due(elapsed_nanos: u128, interval_secs: u64) -> bool {
    elapsed_nanos >= interval_secs as int * NANOSECONDS_PER_SECOND as int
}

/// Whether feedback is due `elapsed_nanos` nanoseconds after the last one,
/// for an interval of `interval_secs` seconds.
pub fn feedback_due(elapsed_nanos: u128, interval_secs: u64) -> (due: bool)
    ensures
        due == spec_feedback_due(elapsed_nanos, interval_secs),
{
    elapsed_nanos >= (interval_secs as u128) * NANOSECONDS_PER_SECOND
}

/// The time that has passed from the reading `last` of a clock to its
/// reading `now`, in the unit of the readings; none where the clock seems to
/// have run backwards.
pub open spec fn spec_elapsed(now: u128, last: u128) -> u128 {
    if now >= last {
        (now - last) as u128
    } else {
        0
    }
}

/// The time that has passed from the reading `last` of a clock to its
/// reading `now`.
pub fn elapsed(now: u128, last: u128) -> (e: u128)
    ensures
        e == spec_elapsed(now, last),
{
    if now >= last {
        now - last
    } else {
        0
    }
}

/// The greater of two positions.
pub open spec fn max_lsn(a: u64, b: u64) -> u64 {
    if a >= b {
        a
    } else {
        b
    }
}

/// A watermark after the position `lsn` was seen: the greater of the two,
/// but position zero means "none" and changes nothing.
pub open spec fn raised(watermark: u64, lsn: u64) -> u64 {
    if lsn > 0 {
        max_lsn(watermark, lsn)
    } else {
        watermark
    }
}

/// Progress of a replication session.
#[derive(Debug)]
pub struct ReplicationState {
    /// Schemas announced so far, by object id.
    pub relations: HashMap<Oid, RelationInfo>,
    /// Highest position received from the server.
    pub received_lsn: u64,
    /// Highest position flushed; reported as equal to the received one.
    pub flushed_lsn: u64,
    /// Highest position whose event a sink has accepted.
    pub applied_lsn: u64,
    /// When feedback last went out: a reading of the state's clock, in
    /// nanoseconds since the clock began.
    pub last_feedback_time: u128,
    /// When the state's clock began.
    pub clock_origin: Instant,
}

/// Mathematical content of a `ReplicationState`: all of it but the origin of
/// its clock.
pub struct StateView {
    pub relations: Map<Oid, RelationInfoView>,
    pub received_lsn: u64,
    pub flushed_lsn: u64,
    pub applied_lsn: u64,
    pub last_feedback_time: u128,
}

impl StateView {
    /// Nothing is applied that was not received.
    pub open spec fn wf(self) -> bool {
        self.applied_lsn <= self.received_lsn
    }

    /// The state before anything was received.
    pub open spec fn initial() -> StateView {
        StateView {
            relations: Map::empty(),
            received_lsn: 0,
            flushed_lsn: 0,
            applied_lsn: 0,
            last_feedback_time: 0,
        }
    }

    /// The same state with feedback marked as sent at the reading `at`.
    pub open spec fn marked(self, at: u128) -> StateView {
        StateView { last_feedback_time: at, ..self }
    }
}

/// The views of the schemas of a relation cache.
pub open spec fn relations_view(relations: Map<Oid, RelationInfo>) -> Map<Oid, RelationInfoView> {
    relations.map_values(|r: RelationInfo| r@)
}

/// Storing a schema under an id stores its view under that id.
pub proof fn lemma_relations_insert(
    relations: Map<Oid, RelationInfo>,
    oid: Oid,
    relation: RelationInfo,
)
    ensures
        relations_view(relations.insert(oid, relation)) == relations_view(relations).insert(
            oid,
            relation@,
        ),
{
    assert(relations_view(relations.insert(oid, relation)) =~= relations_view(relations).insert(
        oid,
        relation@,
    ));
}

impl View for ReplicationState {
    type V = StateView;

    open spec fn view(&self) -> StateView {
        StateView {
            relations: relations_view(self.relations@),
            received_lsn: self.received_lsn,
            flushed_lsn: self.flushed_lsn,
            applied_lsn: self.applied_lsn,
            last_feedback_time: self.last_feedback_time,
        }
    }
}

impl ReplicationState {
    /// The state of a session that has received nothing. Its clock begins
    /// now, and counts as the time of the last feedback.
    pub fn new() -> (s: Self)
        ensures
            s@ == StateView::initial(),
            s@.wf(),
    {
        let s = Self {
            relations: HashMap::new(),
            received_lsn: 0,
            flushed_lsn: 0,
            applied_lsn: 0,
            last_feedback_time: 0,
            clock_origin: monotonic_now(),
        };
        assert(s@.relations =~= Map::<Oid, RelationInfoView>::empty());
        s
    }

    /// Stores a schema under its object id, in place of any schema stored
    /// there before.
    pub fn add_relation(&mut self, relation: RelationInfo)
        ensures
            final(self)@ == (StateView {
                relations: old(self)@.relations.insert(relation.oid, relation@),
                ..old(self)@
            }),
            final(self).relations@ == old(self).relations@.insert(relation.oid, relation),
    {
        proof {
            lemma_relations_insert(self.relations@, relation.oid, relation);
        }
        let _ = self.relations.insert(relation.oid, relation);
    }

    /// The schema stored under `oid`, if there is one.
    pub fn get_relation(&self, oid: Oid) -> (r: Option<&RelationInfo>)
        ensures
            match r {
                Some(relation) => self.relations@.contains_key(oid) && self.relations@[oid]
                    == *relation && self@.relations.contains_key(oid) && self@.relations[oid]
                    == relation@,
                None => !self.relations@.contains_key(oid) && !self@.relations.contains_key(oid),
            },
    {
        self.relations.get(&oid)
    }

    /// Raises the received position to `lsn` if `lsn` is higher; position
    /// zero changes nothing.
    pub fn update_lsn(&mut self, lsn: u64)
        ensures
            final(self)@ == (StateView {
                received_lsn: raised(old(self)@.received_lsn, lsn),
                ..old(self)@
            }),
            old(self)@.wf() ==> final(self)@.wf(),
            final(self).relations == old(self).relations,
    {
        if lsn > 0 && lsn > self.received_lsn {
            self.received_lsn = lsn;
        }
    }

    /// Raises the applied position to `lsn` if `lsn` is higher; position zero
    /// changes nothing. The state stays well formed where `lsn` is no higher
    /// than the received position.
    pub fn update_applied_lsn(&mut self, lsn: u64)
        ensures
            final(self)@ == (StateView {
                applied_lsn: raised(old(self)@.applied_lsn, lsn),
                ..old(self)@
            }),
            old(self)@.wf() && lsn <= old(self)@.received_lsn ==> final(self)@.wf(),
            final(self).relations == old(self).relations,
    {
        if lsn > 0 && lsn > self.applied_lsn {
            self.applied_lsn = lsn;
        }
    }

    /// Whether anything was received yet.
    pub fn has_received_data(&self) -> (b: bool)
        ensures
            b == (self@.received_lsn > 0),
    {
        self.received_lsn > 0
    }

    /// What the state's clock reads now: nanoseconds since it began.
    pub fn clock(&self) -> u128 {
        nanoseconds_since(&self.clock_origin)
    }

    /// Nanoseconds from the last feedback to the reading `now` of the state's
    /// clock.
    pub fn since_last_feedback_at(&self, now: u128) -> (e: u128)
        ensures
            e == spec_elapsed(now, self@.last_feedback_time),
    {
        elapsed(now, self.last_feedback_time)
    }

    /// Nanoseconds since feedback last went out, by the state's clock.
    pub fn since_last_feedback(&self) -> u128 {
        self.since_last_feedback_at(self.clock())
    }

    /// Whether feedback is due now: whether at least `interval_secs` seconds
    /// have passed since feedback last went out.
    pub fn should_send_feedback(&self, interval_secs: u64) -> (due: bool)
        ensures
            interval_secs == 0 ==> due,
    {
        feedback_due(self.since_last_feedback(), interval_secs)
    }

    /// Notes that feedback went out when the state's clock read `at`.
    /// Nothing else changes.
    pub fn mark_feedback_sent_at(&mut self, at: u128)
        ensures
            *final(self) == (ReplicationState { last_feedback_time: at, ..*old(self) }),
            final(self)@ == old(self)@.marked(at),
    {
        self.last_feedback_time = at;
    }

    /// Notes that feedback went out now, by the state's clock. Nothing else
    /// changes.
    pub fn update_feedback_time(&mut self)
        ensures
            final(self)@ == old(self)@.marked(final(self)@.last_feedback_time),
            final(self).relations == old(self).relations,
    {
        let now = self.clock();
        self.mark_feedback_sent_at(now);
    }

    /// Forgets everything: schemas and positions. The clock begins again,
    /// and its beginning counts as the time of the last feedback.
    pub fn reset(&mut self)
        ensures
            final(self)@ == StateView::initial(),
    {
        self.relations = HashMap::new();
        self.received_lsn = 0;
        self.flushed_lsn = 0;
        self.applied_lsn = 0;
        self.last_feedback_time = 0;
        self.clock_origin = monotonic_now();
        assert(self@.relations =~= Map::<Oid, RelationInfoView>::empty());
    }
}

} // verus!
