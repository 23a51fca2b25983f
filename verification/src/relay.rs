//! The duplex relay engine: one relay session pairs a client connection and
//! a backend connection and copies bytes concurrently in both directions
//! until either direction reaches end-of-stream or fails, then tears both
//! connections down. [`RelaySession`] is the session's decision state and
//! byte accounting, driven by the I/O layer one event at a time;
//! [`relay_streams`] runs the same engine over in-memory streams and proves
//! exact, in-order, complete delivery in both directions.

use vstd::prelude::*;

use crate::event::{opposite, Direction, RelayError, Side};

verus! {

/// The bytes of `chunks`, concatenated in order.
pub open spec fn concat_of(chunks: Seq<Seq<u8>>) -> Seq<u8>
    decreases chunks.len(),
{
    if chunks.len() == 0 {
        Seq::empty()
    } else {
        chunks.first() + concat_of(chunks.drop_first())
    }
}

/// The views of a sequence of byte chunks.
pub open spec fn views_of(chunks: Seq<Vec<u8>>) -> Seq<Seq<u8>> {
    chunks.map_values(|c: Vec<u8>| c@)
}

/// The whole byte stream that a sequence of chunks carries.
pub open spec fn stream_of(chunks: Seq<Vec<u8>>) -> Seq<u8> {
    concat_of(views_of(chunks))
}

proof fn lemma_concat_take_succ(chunks: Seq<Seq<u8>>, i: int)
    requires
        0 <= i < chunks.len(),
    ensures
        concat_of(chunks.take(i + 1)) == concat_of(chunks.take(i)) + chunks[i],
    decreases i,
{
    if i == 0 {
        assert(chunks.take(1).drop_first() =~= chunks.take(0));
        assert(concat_of(chunks.take(1)) =~= concat_of(chunks.take(0)) + chunks[0]);
    } else {
        let rest = chunks.drop_first();
        lemma_concat_take_succ(rest, i - 1);
        assert(chunks.take(i + 1).drop_first() =~= rest.take(i));
        assert(chunks.take(i).drop_first() =~= rest.take(i - 1));
        assert(chunks.first() + (concat_of(rest.take(i - 1)) + rest[i - 1]) =~= (chunks.first()
            + concat_of(rest.take(i - 1))) + rest[i - 1]);
    }
}

proof fn lemma_concat_take_len(chunks: Seq<Seq<u8>>, i: int)
    requires
        0 <= i <= chunks.len(),
    ensures
        concat_of(chunks.take(i)).len() <= concat_of(chunks).len(),
    decreases chunks.len() - i,
{
    if i == chunks.len() {
        assert(chunks.take(i) =~= chunks);
    } else {
        lemma_concat_take_succ(chunks, i);
        lemma_concat_take_len(chunks, i + 1);
    }
}

/// The terminal result of a relay session: the bytes copied in each
/// direction, and the failure classification if the session did not end
/// cleanly. Counts are reported even on failure: bytes moved before the
/// failure are counted.
#[derive(Clone, Copy, PartialEq, Eq, Debug)]
pub struct RelayOutcome {
    /// Bytes copied client -> backend.
    pub bytes_up: u64,
    /// Bytes copied backend -> client.
    pub bytes_down: u64,
    /// `None` on clean termination, the classification otherwise.
    pub error: Option<RelayError>,
}

/// One full-duplex relay session: the pairing of one client connection and
/// one backend connection. The I/O layer owns the two connections
/// exclusively for the session's lifetime and reports each read, each
/// end-of-stream and each failure here; the session accounts for every byte
/// it has ordered copied and decides when the pair is torn down.
///
/// Completion policy: the session finishes as soon as either direction
/// terminates, by end-of-stream or by failure. On termination the driver
/// must shut both connections down, so the peer observes the closure
/// promptly and no socket is left half-open.
pub struct RelaySession {
    bytes_up: u64,
    bytes_down: u64,
    done: bool,
    error: Option<RelayError>,
    delivered_up: Ghost<Seq<u8>>,
    delivered_down: Ghost<Seq<u8>>,
}

impl RelaySession {
    /// Every byte delivered to the backend so far (client -> backend), in
    /// delivery order.
    pub closed spec fn up_log(self) -> Seq<u8> {
        self.delivered_up@
    }

    /// Every byte delivered to the client so far (backend -> client), in
    /// delivery order.
    pub closed spec fn down_log(self) -> Seq<u8> {
        self.delivered_down@
    }

    /// The delivery log of one direction.
    pub open spec fn log(self, dir: Direction) -> Seq<u8> {
        match dir {
            Direction::Up => self.up_log(),
            Direction::Down => self.down_log(),
        }
    }

    /// The byte counter for client -> backend.
    pub closed spec fn count_up(self) -> u64 {
        self.bytes_up
    }

    /// The byte counter for backend -> client.
    pub closed spec fn count_down(self) -> u64 {
        self.bytes_down
    }

    /// The byte counter of one direction.
    pub open spec fn count(self, dir: Direction) -> u64 {
        match dir {
            Direction::Up => self.count_up(),
            Direction::Down => self.count_down(),
        }
    }

    /// Whether the session has reached its terminal state.
    pub closed spec fn finished(self) -> bool {
        self.done
    }

    /// Whether both directions are still being copied.
    pub open spec fn running(self) -> bool {
        !self.finished()
    }

    /// The failure recorded at termination, if any.
    pub closed spec fn failure(self) -> Option<RelayError> {
        self.error
    }

    /// The session's invariant: each byte counter equals the length of its
    /// direction's delivery log, and no failure stands while the session
    /// still runs.
    pub open spec fn wf(self) -> bool {
        &&& self.count_up() == self.up_log().len()
        &&& self.count_down() == self.down_log().len()
        &&& (self.running() ==> self.failure() is None)
    }

    /// A fresh session: nothing delivered yet, both directions open.
    pub fn new() -> (s: RelaySession)
        ensures
            s.wf(),
            s.running(),
            s.up_log() == Seq::<u8>::empty(),
            s.down_log() == Seq::<u8>::empty(),
            s.count_up() == 0,
            s.count_down() == 0,
    {
        RelaySession {
            bytes_up: 0,
            bytes_down: 0,
            done: false,
            error: None,
            delivered_up: Ghost(Seq::empty()),
            delivered_down: Ghost(Seq::empty()),
        }
    }

    /// Record that `data`, read on direction `dir`, has been copied to that
    /// direction's destination: the delivery log of `dir` grows by exactly
    /// `data`, in order — no byte dropped, duplicated or reordered — the
    /// counter grows by `data`'s length, and the other direction is
    /// untouched.
    pub fn on_data(&mut self, dir: Direction, data: &Vec<u8>)
        requires
            old(self).wf(),
            old(self).running(),
            old(self).count(dir) + data@.len() <= u64::MAX,
        ensures
            final(self).wf(),
            final(self).running(),
            final(self).log(dir) == old(self).log(dir) + data@,
            final(self).log(opposite(dir)) == old(self).log(opposite(dir)),
            final(self).count(dir) == old(self).count(dir) + data@.len(),
            final(self).count(opposite(dir)) == old(self).count(opposite(dir)),
            final(self).failure() == old(self).failure(),
    {
        match dir {
            Direction::Up => {
                self.bytes_up = self.bytes_up + data.len() as u64;
                self.delivered_up = Ghost(self.delivered_up@ + data@);
            },
            Direction::Down => {
                self.bytes_down = self.bytes_down + data.len() as u64;
                self.delivered_down = Ghost(self.delivered_down@ + data@);
            },
        }
    }

    /// End-of-stream on `dir`'s source: the session finishes cleanly, with
    /// every delivered byte and both counters kept — nothing already copied
    /// is lost at teardown, and the session does not wait for the other
    /// direction. The driver must now shut both connections down.
    pub fn on_eof(&mut self, dir: Direction)
        requires
            old(self).wf(),
            old(self).running(),
        ensures
            final(self).wf(),
            final(self).finished(),
            final(self).failure() is None,
            final(self).up_log() == old(self).up_log(),
            final(self).down_log() == old(self).down_log(),
            final(self).count_up() == old(self).count_up(),
            final(self).count_down() == old(self).count_down(),
    {
        self.done = true;
    }

    /// A failed read on `dir`'s source: the session finishes with a read
    /// failure on that direction, logs and counters kept. The driver must
    /// now shut both connections down.
    pub fn on_read_error(&mut self, dir: Direction)
        requires
            old(self).wf(),
            old(self).running(),
        ensures
            final(self).wf(),
            final(self).finished(),
            final(self).failure() == Some(RelayError::Read { dir }),
            final(self).up_log() == old(self).up_log(),
            final(self).down_log() == old(self).down_log(),
            final(self).count_up() == old(self).count_up(),
            final(self).count_down() == old(self).count_down(),
    {
        self.done = true;
        self.error = Some(RelayError::Read { dir });
    }

    /// A failed write on `dir`'s destination: the session finishes with a
    /// write failure on that direction, logs and counters kept. The driver
    /// must now shut both connections down.
    pub fn on_write_error(&mut self, dir: Direction)
        requires
            old(self).wf(),
            old(self).running(),
        ensures
            final(self).wf(),
            final(self).finished(),
            final(self).failure() == Some(RelayError::Write { dir }),
            final(self).up_log() == old(self).up_log(),
            final(self).down_log() == old(self).down_log(),
            final(self).count_up() == old(self).count_up(),
            final(self).count_down() == old(self).count_down(),
    {
        self.done = true;
        self.error = Some(RelayError::Write { dir });
    }

    /// A failed shutdown on `side` during teardown. The first failure of
    /// the session is the one kept; logs and counters stay as they are.
    pub fn on_shutdown_error(&mut self, side: Side)
        requires
            old(self).wf(),
            old(self).finished(),
        ensures
            final(self).wf(),
            final(self).finished(),
            old(self).failure() is None ==> final(self).failure() == Some(
                RelayError::Shutdown { side },
            ),
            old(self).failure() is Some ==> final(self).failure() == old(self).failure(),
            final(self).up_log() == old(self).up_log(),
            final(self).down_log() == old(self).down_log(),
            final(self).count_up() == old(self).count_up(),
            final(self).count_down() == old(self).count_down(),
    {
        if self.error.is_none() {
            self.error = Some(RelayError::Shutdown { side });
        }
    }

    /// Whether the session has reached its terminal state.
    pub fn is_finished(&self) -> (r: bool)
        ensures
            r == self.finished(),
    {
        self.done
    }

    /// Bytes copied client -> backend so far.
    pub fn bytes_to_backend(&self) -> (r: u64)
        ensures
            r == self.count_up(),
    {
        self.bytes_up
    }

    /// Bytes copied backend -> client so far.
    pub fn bytes_to_client(&self) -> (r: u64)
        ensures
            r == self.count_down(),
    {
        self.bytes_down
    }

    /// The terminal outcome: both counters and the failure classification.
    pub fn outcome(&self) -> (r: RelayOutcome)
        requires
            self.finished(),
        ensures
            r.bytes_up == self.count_up(),
            r.bytes_down == self.count_down(),
            r.error == self.failure(),
    {
        RelayOutcome { bytes_up: self.bytes_up, bytes_down: self.bytes_down, error: self.error }
    }
}

/// What a run of the duplex relay over in-memory streams produced: the
/// bytes each peer received, and the session's outcome.
#[derive(Clone, PartialEq, Eq, Debug)]
pub struct RelayTranscript {
    /// The bytes the backend received.
    pub to_backend: Vec<u8>,
    /// The bytes the client received.
    pub to_client: Vec<u8>,
    /// The session's terminal outcome.
    pub outcome: RelayOutcome,
}

/// Append every byte of `src` to `dst`, in order.
fn push_all(dst: &mut Vec<u8>, src: &Vec<u8>)
    ensures
        final(dst)@ == old(dst)@ + src@,
{
    let mut k: usize = 0;
    while k < src.len()
        invariant
            k <= src.len(),
            dst@ == old(dst)@ + src@.take(k as int),
        decreases src.len() - k,
    {
        let b = src[k];
        assert(old(dst)@ + src@.take(k as int) + seq![src@[k as int]] =~= old(dst)@ + src@.take(
            k as int + 1,
        ));
        dst.push(b);
        k = k + 1;
    }
    assert(old(dst)@ + src@.take(src@.len() as int) =~= old(dst)@ + src@);
}

/// The duplex relay over two finite in-memory streams, each given as the
/// chunks its reads return, ended by a half-close on each side: for every
/// pair of finite byte streams, the backend receives exactly the bytes the
/// client sent and the client exactly the bytes the backend sent, each in
/// order, with no byte dropped, duplicated or reordered; the reported
/// counts equal the stream lengths; and the run terminates. The two
/// directions are interleaved round-robin — within a direction bytes keep
/// their order, between the directions no order is promised.
pub fn relay_streams(client_tx: &Vec<Vec<u8>>, backend_tx: &Vec<Vec<u8>>) -> (r: RelayTranscript)
    requires
        stream_of(client_tx@).len() <= u64::MAX,
        stream_of(backend_tx@).len() <= u64::MAX,
    ensures
        r.to_backend@ == stream_of(client_tx@),
        r.to_client@ == stream_of(backend_tx@),
        r.outcome.bytes_up == stream_of(client_tx@).len(),
        r.outcome.bytes_down == stream_of(backend_tx@).len(),
        r.outcome.error is None,
{
    let mut session = RelaySession::new();
    let mut to_backend: Vec<u8> = Vec::new();
    let mut to_client: Vec<u8> = Vec::new();
    let mut i: usize = 0;
    let mut j: usize = 0;
    while i < client_tx.len() || j < backend_tx.len()
        invariant
            i <= client_tx@.len(),
            j <= backend_tx@.len(),
            session.wf(),
            session.running(),
            session.up_log() == concat_of(views_of(client_tx@).take(i as int)),
            session.down_log() == concat_of(views_of(backend_tx@).take(j as int)),
            to_backend@ == session.up_log(),
            to_client@ == session.down_log(),
            stream_of(client_tx@).len() <= u64::MAX,
            stream_of(backend_tx@).len() <= u64::MAX,
        decreases client_tx@.len() - i + backend_tx@.len() - j,
    {
        if i < client_tx.len() {
            let chunk = &client_tx[i];
            proof {
                lemma_concat_take_succ(views_of(client_tx@), i as int);
                lemma_concat_take_len(views_of(client_tx@), i as int + 1);
            }
            session.on_data(Direction::Up, chunk);
            push_all(&mut to_backend, chunk);
            i = i + 1;
        }
        if j < backend_tx.len() {
            let chunk = &backend_tx[j];
            proof {
                lemma_concat_take_succ(views_of(backend_tx@), j as int);
                lemma_concat_take_len(views_of(backend_tx@), j as int + 1);
            }
            session.on_data(Direction::Down, chunk);
            push_all(&mut to_client, chunk);
            j = j + 1;
        }
    }
    proof {
        assert(views_of(client_tx@).take(client_tx@.len() as int) =~= views_of(client_tx@));
        assert(views_of(backend_tx@).take(backend_tx@.len() as int) =~= views_of(backend_tx@));
    }
    session.on_eof(Direction::Up);
    let outcome = session.outcome();
    RelayTranscript { to_backend, to_client, outcome }
}

} // verus!
