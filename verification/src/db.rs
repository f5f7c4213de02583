//! Buffering of samples on their way to the database: samples are collected
//! and written in batches of a fixed size, and whatever is left is written
//! when the session ends.
use vstd::prelude::*;

use crate::schema::system_clock;
use crate::schema::clock_instant;
use crate::schema::representable_instant;
use crate::schema::MonitoringSession;
use crate::schema::Timestamp;

verus! {

/// The name under which the daemon records its sessions.
pub const SESSION_NAME: &'static str = "greend session";

/// `s` is the session that the daemon opens on the system `os` when it
/// starts at `started_at`, having created the record at `created_at`: named
/// [`SESSION_NAME`], not yet ended, with no device name or system version,
/// and with no id until the database assigns one.
pub open spec fn is_daemon_session(
    s: MonitoringSession,
    os: Seq<char>,
    started_at: Timestamp,
    created_at: Timestamp,
) -> bool {
    &&& s.id is None
    &&& s.name@ == SESSION_NAME@
    &&& s.device_name is None
    &&& s.os_name.deep_view() == Some(os)
    &&& s.os_version is None
    &&& s.started_at == started_at
    &&& s.ended_at is None
    &&& s.created_at == created_at
}

/// The daemon's session on the system `os`, started at `started_at` and
/// created at `created_at`.
pub fn session_at(os: &str, started_at: Timestamp, created_at: Timestamp) -> (s: MonitoringSession)
    ensures
        is_daemon_session(s, os@, started_at, created_at),
{
    MonitoringSession {
        id: None,
        name: String::from_str(SESSION_NAME),
        device_name: None,
        os_name: Some(String::from_str(os)),
        os_version: None,
        started_at,
        ended_at: None,
        created_at,
    }
}

/// `r` is what the daemon opens on the system `os` given two readings of the
/// clock, one for the start and one for the record's creation: the session
/// at the two instants where both readings give a timestamp (see
/// [`Timestamp::from_clock`]), and none otherwise.
pub open spec fn session_from_readings(
    r: Option<MonitoringSession>,
    os: Seq<char>,
    started: Option<(u64, u32)>,
    created: Option<(u64, u32)>,
) -> bool {
    match (
        representable_instant(clock_instant(started)),
        representable_instant(clock_instant(created)),
    ) {
        (Some((a_secs, a_nanos)), Some((b_secs, b_nanos))) => r matches Some(s) && {
            &&& is_daemon_session(s, os, s.started_at, s.created_at)
            &&& s.started_at.seconds() == a_secs && s.started_at.subsec_nanos() == a_nanos
            &&& s.created_at.seconds() == b_secs && s.created_at.subsec_nanos() == b_nanos
        },
        _ => r is None,
    }
}

/// The daemon's session on the system `os` for the two clock readings
/// `started` and `created` (see [`session_from_readings`]).
pub fn session_from_clock(
    os: &str,
    started: Option<(u64, u32)>,
    created: Option<(u64, u32)>,
) -> (r: Option<MonitoringSession>)
    ensures
        session_from_readings(r, os@, started, created),
{
    let started_at = match Timestamp::from_clock(started) {
        Some(t) => t,
        None => return None,
    };
    let created_at = match Timestamp::from_clock(created) {
        Some(t) => t,
        None => return None,
    };
    Some(session_at(os, started_at, created_at))
}

/// The session that the daemon opens when it starts on the system `os`: the
/// session for two readings of the system clock, taken in turn.
pub fn daemon_session(os: &str) -> (r: Option<MonitoringSession>)
    ensures
        exists|started: Option<(u64, u32)>, created: Option<(u64, u32)>|
            session_from_readings(r, os@, started, created),
{
    let started = system_clock();
    let created = system_clock();
    let r = session_from_clock(os, started, created);
    assert(session_from_readings(r, os@, started, created));
    r
}

/// The values that a session row is inserted with, timestamps written as
/// RFC 3339 text.
pub struct SessionRow {
    pub name: String,
    pub device_name: Option<String>,
    pub os_name: Option<String>,
    pub os_version: Option<String>,
    pub started_at: String,
    pub ended_at: Option<String>,
    pub created_at: String,
}

/// The RFC 3339 text of an optional timestamp.
pub open spec fn opt_text(t: Option<Timestamp>) -> Option<Seq<char>> {
    match t {
        Some(t) => Some(t.text()),
        None => None,
    }
}

/// `row` holds the values of the session `s`: every field but the id, the
/// timestamps as RFC 3339 text.
pub open spec fn row_matches(row: SessionRow, s: MonitoringSession) -> bool {
    &&& row.name@ == s.name@
    &&& row.device_name.deep_view() == s.device_name.deep_view()
    &&& row.os_name.deep_view() == s.os_name.deep_view()
    &&& row.os_version.deep_view() == s.os_version.deep_view()
    &&& row.started_at@ == s.started_at.text()
    &&& row.ended_at.deep_view() == opt_text(s.ended_at)
    &&& row.created_at@ == s.created_at.text()
}

/// The id of a session plays no part in the row it is inserted with: the
/// database assigns it.
pub proof fn lemma_session_row_ignores_id(s: MonitoringSession, t: MonitoringSession, row: SessionRow)
    requires
        t == (MonitoringSession { id: t.id, ..s }),
    ensures
        row_matches(row, s) == row_matches(row, t),
{
}

/// A copy of an optional string.
fn clone_opt(o: &Option<String>) -> (r: Option<String>)
    ensures
        r.deep_view() == o.deep_view(),
{
    match o {
        Some(s) => Some(s.clone()),
        None => None,
    }
}

/// The values to insert for the session `s` (its id is left to the
/// database).
pub fn session_row(s: &MonitoringSession) -> (row: SessionRow)
    ensures
        row_matches(row, *s),
{
    let ended_at = match &s.ended_at {
        Some(e) => Some(e.to_rfc3339()),
        None => None,
    };
    SessionRow {
        name: s.name.clone(),
        device_name: clone_opt(&s.device_name),
        os_name: clone_opt(&s.os_name),
        os_version: clone_opt(&s.os_version),
        started_at: s.started_at.to_rfc3339(),
        ended_at,
        created_at: s.created_at.to_rfc3339(),
    }
}

/// What stays pending after a sample arrives at a buffer holding `pending`:
/// everything, once it makes up a full batch of `batch_size`, is handed out
/// for writing, and otherwise the sample joins the pending ones.
pub open spec fn pending_after_receive<T>(pending: Seq<T>, sample: T, batch_size: nat) -> Seq<T> {
    if pending.len() + 1 >= batch_size {
        Seq::empty()
    } else {
        pending.push(sample)
    }
}

/// Between receives, fewer samples than a batch stay pending: a buffer
/// below a full batch stays below it after the next sample arrives, and the
/// sample that completes a batch empties it.
pub proof fn lemma_receive_stays_below_batch<T>(pending: Seq<T>, sample: T, batch_size: nat)
    requires
        pending.len() < batch_size,
    ensures
        pending_after_receive(pending, sample, batch_size).len() < batch_size,
        pending.len() + 1 == batch_size ==> pending_after_receive(pending, sample, batch_size)
            == Seq::<T>::empty(),
        pending.len() + 1 < batch_size ==> pending_after_receive(pending, sample, batch_size)
            == pending.push(sample),
{
}

/// Samples collected for the database, written in batches of `capacity`.
pub struct SampleBuffer<T> {
    pending: Vec<T>,
    capacity: usize,
    total_samples: u64,
    received: Ghost<Seq<T>>,
    written: Ghost<Seq<T>>,
}

impl<T> SampleBuffer<T> {
    /// The samples received and not yet handed out for writing, oldest first.
    pub closed spec fn pending(&self) -> Seq<T> {
        self.pending@
    }

    /// How many samples make a full batch.
    pub closed spec fn capacity(&self) -> nat {
        self.capacity as nat
    }

    /// Every sample received so far, in order.
    pub closed spec fn received(&self) -> Seq<T> {
        self.received@
    }

    /// Every sample handed out for writing so far, in order.
    pub closed spec fn written(&self) -> Seq<T> {
        self.written@
    }

    /// What every buffer keeps: the samples handed out for writing, followed
    /// by the pending ones, are exactly the samples received.
    #[verifier::type_invariant]
    pub closed spec fn wf(&self) -> bool {
        &&& self.capacity > 0
        &&& self.received@ == self.written@ + self.pending@
        &&& self.total_samples == self.received@.len()
    }

    /// An empty buffer that asks for a write every `capacity` samples.
    pub fn new(capacity: usize) -> (r: SampleBuffer<T>)
        requires
            capacity > 0,
        ensures
            r.pending() == Seq::<T>::empty(),
            r.received() == Seq::<T>::empty(),
            r.written() == Seq::<T>::empty(),
            r.capacity() == capacity,
    {
        SampleBuffer {
            pending: Vec::new(),
            capacity,
            total_samples: 0,
            received: Ghost(Seq::empty()),
            written: Ghost(Seq::empty()),
        }
    }

    /// How many samples make a full batch.
    pub fn batch_size(&self) -> (r: usize)
        ensures
            r == self.capacity(),
            r > 0,
    {
        proof {
            use_type_invariant(self);
        }
        self.capacity
    }

    /// How many samples were received so far.
    pub fn total_samples(&self) -> (r: u64)
        ensures
            r == self.received().len(),
    {
        proof {
            use_type_invariant(self);
        }
        self.total_samples
    }

    /// How many samples are waiting to be written.
    pub fn len(&self) -> (r: usize)
        ensures
            r == self.pending().len(),
    {
        self.pending.len()
    }

    /// Whether no sample is waiting to be written.
    pub fn is_empty(&self) -> (r: bool)
        ensures
            r == (self.pending().len() == 0),
    {
        self.pending.len() == 0
    }

    /// Takes the buffer's parts out, leaving an empty buffer of the same
    /// batch size in its place.
    fn take_parts(&mut self) -> (parts: (Vec<T>, usize, u64, Ghost<Seq<T>>, Ghost<Seq<T>>))
        ensures
            parts.0@ == old(self).pending(),
            parts.1 == old(self).capacity(),
            parts.1 > 0,
            parts.2 == old(self).received().len(),
            parts.3@ == old(self).received(),
            parts.4@ == old(self).written(),
            parts.3@ == parts.4@ + parts.0@,
    {
        proof {
            use_type_invariant(&*self);
        }
        let mut other = SampleBuffer::new(self.capacity);
        std::mem::swap(self, &mut other);
        let SampleBuffer { pending, capacity, total_samples, received, written } = other;
        (pending, capacity, total_samples, received, written)
    }

    /// Takes in one sample, and says whether the buffer is now full, so
    /// that its batch is due to be written.
    pub fn push(&mut self, sample: T) -> (full: bool)
        requires
            old(self).received().len() < u64::MAX,
        ensures
            final(self).pending() == old(self).pending().push(sample),
            final(self).received() == old(self).received().push(sample),
            final(self).written() == old(self).written(),
            final(self).capacity() == old(self).capacity(),
            full == (final(self).pending().len() >= final(self).capacity()),
            old(self).pending().len() < old(self).capacity() ==> (full <==> final(self).pending().len() == final(self).capacity()),
            old(self).pending().len() < old(self).capacity() ==> final(self).pending().len()
                <= final(self).capacity(),
            final(self).received() == final(self).written() + final(self).pending(),
    {
        let (mut pending, capacity, total_samples, received, written) = self.take_parts();
        let ghost s = sample;
        let ghost p = pending@;
        pending.push(sample);
        let full = pending.len() >= capacity;
        proof {
            assert(received@.push(s) =~= written@ + pending@) by {
                assert(pending@ == p.push(s));
            }
        }
        *self = SampleBuffer {
            pending,
            capacity,
            total_samples: total_samples + 1,
            received: Ghost(received@.push(s)),
            written,
        };
        full
    }

    /// Takes in one sample and, when it completes a batch, hands out the whole
    /// batch, oldest first, for writing.
    pub fn receive(&mut self, sample: T) -> (batch: Option<Vec<T>>)
        requires
            old(self).received().len() < u64::MAX,
        ensures
            final(self).capacity() == old(self).capacity(),
            final(self).received() == old(self).received().push(sample),
            final(self).pending() == pending_after_receive(
                old(self).pending(),
                sample,
                old(self).capacity(),
            ),
            match batch {
                Some(b) => old(self).pending().len() + 1 >= old(self).capacity() && b@ == old(self).pending().push(sample) && final(self).written() == old(self).written() + b@,
                None => old(self).pending().len() + 1 < old(self).capacity() && final(self).written() == old(self).written(),
            },
            final(self).received() == final(self).written() + final(self).pending(),
    {
        if self.push(sample) {
            Some(self.take_batch())
        } else {
            None
        }
    }

    /// Hands out every pending sample, oldest first, for writing; the buffer
    /// is empty afterwards.
    pub fn take_batch(&mut self) -> (batch: Vec<T>)
        ensures
            batch@ == old(self).pending(),
            final(self).pending() == Seq::<T>::empty(),
            final(self).received() == old(self).received(),
            final(self).written() == old(self).written() + batch@,
            final(self).capacity() == old(self).capacity(),
            final(self).received() == final(self).written() + final(self).pending(),
    {
        let (pending, capacity, total_samples, received, written) = self.take_parts();
        let ghost batch_view = pending@;
        proof {
            assert(received@ =~= (written@ + batch_view) + Seq::<T>::empty());
        }
        *self = SampleBuffer {
            pending: Vec::new(),
            capacity,
            total_samples,
            received,
            written: Ghost(written@ + batch_view),
        };
        pending
    }

    /// At the end of the session: hands out the samples still pending, if
    /// there are any. Afterwards every sample received has been handed out.
    pub fn finish(&mut self) -> (rest: Option<Vec<T>>)
        ensures
            final(self).pending() == Seq::<T>::empty(),
            final(self).received() == old(self).received(),
            final(self).written() == final(self).received(),
            final(self).capacity() == old(self).capacity(),
            match rest {
                Some(batch) => old(self).pending().len() > 0 && batch@ == old(self).pending()
                    && final(self).written() == old(self).written() + batch@,
                None => old(self).pending().len() == 0 && final(self).written() == old(self).written(),
            },
    {
        proof {
            use_type_invariant(&*self);
        }
        if self.pending.len() == 0 {
            proof {
                assert(self.written@ =~= self.written@ + self.pending@);
            }
            None
        } else {
            let batch = self.take_batch();
            proof {
                assert(self.written@ =~= self.written@ + self.pending@);
            }
            Some(batch)
        }
    }

    /// Every sample received is either handed out for writing or pending,
    /// in the order of arrival; so once nothing is pending, every sample
    /// received has been handed out exactly once, in order. (Every buffer
    /// meets `wf`; `use_type_invariant` makes that known of a given one.)
    pub proof fn lemma_nothing_lost(b: &Self)
        requires
            b.wf(),
        ensures
            b.received() == b.written() + b.pending(),
            b.pending().len() == 0 ==> b.written() == b.received(),
    {
        if b.pending().len() == 0 {
            assert(b.written@ + b.pending@ =~= b.written@);
        }
    }
}

} // verus!
