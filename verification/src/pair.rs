//! A connection pair: one accepted client connection and the outbound
//! connection to the target, relayed by two independent copiers, one per
//! direction.
//!
//! Pairing opens the target connection; the caller performs the connect and
//! hands the result to [`pair_up`]. Once paired, each direction's copier runs
//! on its own; the only interaction between them is teardown: when either
//! copier terminates, both connections are shut down for reading and writing,
//! which the other copier observes as end of stream or a failed write.

use vstd::prelude::*;

use crate::copier::CopierModel;
use crate::copier::Copier;
use crate::copier::CopyAction;
use crate::copier::Phase;
use crate::copier::ReadEvent;
use crate::copier::ReadOutcome;
use crate::copier::WriteFollowUp;
use crate::copier::ends_stream;
use crate::copier::read_action;
use crate::copier::read_step;
use crate::copier::write_follow_up;
use crate::copier::write_step;

verus! {

/// The two relay directions of a pair.
#[derive(Clone, Copy, PartialEq, Eq, Structural, Debug)]
pub enum Dir {
    ClientToTarget,
    TargetToClient,
}

/// The other direction of a pair.
pub open spec fn opposite(d: Dir) -> Dir {
    match d {
        Dir::ClientToTarget => Dir::TargetToClient,
        Dir::TargetToClient => Dir::ClientToTarget,
    }
}

/// Mathematical model of one pair: the shutdown state of each connection and
/// the two copier models.
#[verifier::ext_equal]
pub struct PairModel {
    pub client_shut: bool,
    pub target_shut: bool,
    pub c2t: CopierModel,
    pub t2c: CopierModel,
}

impl PairModel {
    /// A pair right after a successful connect: both connections open, both
    /// copiers fresh.
    pub open spec fn init() -> PairModel {
        PairModel {
            client_shut: false,
            target_shut: false,
            c2t: CopierModel::init(),
            t2c: CopierModel::init(),
        }
    }

    pub open spec fn wf(self) -> bool {
        &&& self.c2t.wf()
        &&& self.t2c.wf()
    }

    /// The copier of the given direction.
    pub open spec fn copier(self, d: Dir) -> CopierModel {
        match d {
            Dir::ClientToTarget => self.c2t,
            Dir::TargetToClient => self.t2c,
        }
    }

    /// Both connections shut down for reading and writing.
    pub open spec fn torn_down(self) -> bool {
        self.client_shut && self.target_shut
    }
}

/// One direction's read result applied to the pair: only that direction's
/// copier moves.
pub open spec fn pair_read_step(p: PairModel, d: Dir, ev: ReadEvent) -> PairModel {
    match d {
        Dir::ClientToTarget => PairModel { c2t: read_step(p.c2t, ev), ..p },
        Dir::TargetToClient => PairModel { t2c: read_step(p.t2c, ev), ..p },
    }
}

/// One direction's write result applied to the pair: only that direction's
/// copier moves.
pub open spec fn pair_write_step(p: PairModel, d: Dir, ok: bool) -> PairModel {
    match d {
        Dir::ClientToTarget => PairModel { c2t: write_step(p.c2t, ok), ..p },
        Dir::TargetToClient => PairModel { t2c: write_step(p.t2c, ok), ..p },
    }
}

/// Teardown: both connections are shut down for both directions, whatever
/// state they were in. The copiers are untouched; each observes the shutdown
/// at its next blocking operation.
pub open spec fn teardown_step(p: PairModel) -> PairModel {
    PairModel { client_shut: true, target_shut: true, ..p }
}

/// Pairing failed: connecting to the target did not succeed. The client
/// connection must be shut down and the attempt abandoned.
#[derive(Clone, Copy, PartialEq, Eq, Structural, Debug)]
pub struct ConnectError;

/// One connection pair under relay. The caller owns the sockets and performs
/// every blocking operation; the pair dictates the actions and carries the
/// model of both byte streams and the shutdown state.
pub struct Pair {
    pub client_shut: bool,
    pub target_shut: bool,
    pub c2t: Copier,
    pub t2c: Copier,
}

impl View for Pair {
    type V = PairModel;

    open spec fn view(&self) -> PairModel {
        PairModel {
            client_shut: self.client_shut,
            target_shut: self.target_shut,
            c2t: self.c2t@,
            t2c: self.t2c@,
        }
    }
}

/// Decide the outcome of pairing an accepted client connection with the
/// target: `connected` says whether the connect to the target address
/// succeeded. On success the pair starts with both copiers fresh; on failure
/// the caller gets `ConnectError`, must shut the client connection down, and
/// no pair exists. This is the only error the pairing call surfaces; once the
/// copiers run, their failures are handled by teardown alone.
pub fn pair_up(connected: bool) -> (r: Result<Pair, ConnectError>)
    ensures
        r is Ok <==> connected,
        r matches Ok(p) ==> p.wf() && p@ == PairModel::init(),
{
    if connected {
        Ok(Pair { client_shut: false, target_shut: false, c2t: Copier::new(), t2c: Copier::new() })
    } else {
        Err(ConnectError)
    }
}

impl Pair {
    pub open spec fn wf(self) -> bool {
        &&& self.c2t.wf()
        &&& self.t2c.wf()
    }

    /// Feed one direction's read result in. Only that direction's copier
    /// moves; the action is the copier's: forward the bytes read, or tear
    /// down.
    pub fn on_read(&mut self, d: Dir, r: ReadOutcome) -> (a: CopyAction)
        requires
            old(self).wf(),
            old(self)@.copier(d).phase == Phase::Ready,
        ensures
            final(self).wf(),
            final(self)@ == pair_read_step(old(self)@, d, r@),
            a@ == read_action(r@),
    {
        match d {
            Dir::ClientToTarget => self.c2t.on_read(r),
            Dir::TargetToClient => self.t2c.on_read(r),
        }
    }

    /// Feed one direction's write result in. Only that direction's copier
    /// moves.
    pub fn on_written(&mut self, d: Dir, ok: bool) -> (f: WriteFollowUp)
        requires
            old(self).wf(),
            old(self)@.copier(d).phase == Phase::Writing,
        ensures
            final(self).wf(),
            final(self)@ == pair_write_step(old(self)@, d, ok),
            f == write_follow_up(ok),
    {
        match d {
            Dir::ClientToTarget => self.c2t.on_written(ok),
            Dir::TargetToClient => self.t2c.on_written(ok),
        }
    }

    /// Record the teardown of the pair: both connections shut down for both
    /// reading and writing. Safe to invoke any number of times, from either
    /// copier: on a pair already torn down it changes nothing and raises no
    /// error.
    pub fn teardown(&mut self)
        requires
            old(self).wf(),
        ensures
            final(self).wf(),
            final(self)@ == teardown_step(old(self)@),
            old(self)@.torn_down() ==> final(self)@ == old(self)@,
    {
        self.client_shut = true;
        self.target_shut = true;
        proof {
            assert(self@ =~= teardown_step(old(self)@));
            if old(self)@.torn_down() {
                assert(self@ =~= old(self)@);
            }
        }
    }

    /// Whether the client connection has been shut down.
    pub fn client_is_shut(&self) -> (b: bool)
        ensures
            b == self@.client_shut,
    {
        self.client_shut
    }

    /// Whether the target connection has been shut down.
    pub fn target_is_shut(&self) -> (b: bool)
        ensures
            b == self@.target_shut,
    {
        self.target_shut
    }
}

/// Bidirectional independence: a step of one direction moves neither the
/// other direction's copier nor the shutdown state of either connection. The
/// two byte streams of a pair never block, reorder or otherwise affect each
/// other.
pub proof fn lemma_bidirectional_independence(p: PairModel, d: Dir, ev: ReadEvent, ok: bool)
    ensures
        pair_read_step(p, d, ev).copier(opposite(d)) == p.copier(opposite(d)),
        pair_read_step(p, d, ev).client_shut == p.client_shut,
        pair_read_step(p, d, ev).target_shut == p.target_shut,
        pair_write_step(p, d, ok).copier(opposite(d)) == p.copier(opposite(d)),
        pair_write_step(p, d, ok).client_shut == p.client_shut,
        pair_write_step(p, d, ok).target_shut == p.target_shut,
{
}

/// Teardown propagation: when either side's stream ends or fails, that
/// direction's copier terminates and the teardown it demands shuts both
/// connections, client and target alike. The sibling copier then terminates
/// at its next blocking operation: a read on a shut connection reports end of
/// stream, and a write on it fails.
pub proof fn lemma_teardown_propagation(p: PairModel, d: Dir, ev: ReadEvent)
    requires
        p.wf(),
        p.copier(d).phase == Phase::Ready,
        ends_stream(ev),
    ensures
        ({
            let q = teardown_step(pair_read_step(p, d, ev));
            &&& q.client_shut
            &&& q.target_shut
            &&& q.copier(d).phase == Phase::Done
            &&& q.copier(opposite(d)).phase == Phase::Ready ==> pair_read_step(
                q,
                opposite(d),
                ReadEvent::End,
            ).copier(opposite(d)).phase == Phase::Done
            &&& q.copier(opposite(d)).phase == Phase::Writing ==> pair_write_step(
                q,
                opposite(d),
                false,
            ).copier(opposite(d)).phase == Phase::Done
        }),
{
}

/// Idempotent shutdown: both copiers of a pair may race to tear the same two
/// connections down; tearing down an already torn-down pair changes nothing.
pub proof fn lemma_shutdown_idempotent(p: PairModel)
    ensures
        teardown_step(teardown_step(p)) == teardown_step(p),
        p.torn_down() ==> teardown_step(p) == p,
{
    assert(teardown_step(teardown_step(p)) =~= teardown_step(p));
    if p.torn_down() {
        assert(teardown_step(p) =~= p);
    }
}

} // verus!
