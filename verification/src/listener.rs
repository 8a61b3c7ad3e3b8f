//! The listener loop: bind the proxy address, accept connections forever, and
//! hand each accepted connection to the pairer on its own task.
//!
//! The caller performs the blocking accept; the library decides what each
//! accept result means. A failed accept is transient: it is logged and the
//! loop keeps accepting. A failed bind is fatal and happens before any pair
//! exists. The relay model below ties the per-pair machines together and
//! shows that pairs never interfere with each other or with the listener.

use vstd::prelude::*;

use crate::copier::ReadEvent;
use crate::pair::Dir;
use crate::pair::PairModel;
use crate::pair::pair_read_step;

verus! {

/// What the listener loop does with one accept result: hand the new
/// connection to the pairer on a fresh task, or log the transient error and
/// keep accepting. No accept result ever stops the listener.
#[derive(Clone, Copy, PartialEq, Eq, Structural, Debug)]
pub enum AcceptDecision {
    HandleConnection,
    KeepListening,
}

/// Decide what to do with one accept result. `accepted` says whether the
/// accept call returned a connection.
pub fn on_accept_result(accepted: bool) -> (d: AcceptDecision)
    ensures
        d == AcceptDecision::HandleConnection <==> accepted,
{
    if accepted {
        AcceptDecision::HandleConnection
    } else {
        AcceptDecision::KeepListening
    }
}

/// Mathematical model of the whole relay: whether the listener is accepting,
/// and the pair of every connection that was successfully paired, keyed by an
/// identifier unique to the accepted connection. The relay is stateless
/// across connections: no other state exists.
#[verifier::ext_equal]
pub struct RelayModel {
    pub listening: bool,
    pub pairs: Map<u64, PairModel>,
}

impl RelayModel {
    /// The relay right after a successful bind: listening, no pairs yet.
    pub open spec fn init() -> RelayModel {
        RelayModel { listening: true, pairs: Map::empty() }
    }

    pub open spec fn wf(self) -> bool {
        forall|id: u64| self.pairs.contains_key(id) ==> (#[trigger] self.pairs[id]).wf()
    }
}

/// The connect result of one accepted connection applied to the relay: on
/// success a fresh pair starts; on failure the client connection is shut
/// down, the attempt is abandoned, and no pair is recorded.
pub open spec fn connect_step(r: RelayModel, id: u64, connected: bool) -> RelayModel {
    if connected {
        RelayModel { listening: r.listening, pairs: r.pairs.insert(id, PairModel::init()) }
    } else {
        r
    }
}

/// One pair's read event applied to the relay: only that pair moves.
pub open spec fn relay_pair_step(r: RelayModel, id: u64, d: Dir, ev: ReadEvent) -> RelayModel {
    RelayModel { listening: r.listening, pairs: r.pairs.insert(id, pair_read_step(r.pairs[id], d, ev)) }
}

/// Connect failure isolation: a pairing attempt that fails to reach the
/// target changes no existing pair and leaves the listener accepting; only
/// the affected client connection is shut down, by the pairer. A successful
/// pairing likewise touches no other pair.
pub proof fn lemma_connect_failure_isolation(r: RelayModel, id: u64, connected: bool)
    requires
        !r.pairs.contains_key(id),
    ensures
        connect_step(r, id, false) == r,
        connect_step(r, id, connected).listening == r.listening,
        forall|j: u64|
            j != id && r.pairs.contains_key(j) ==> connect_step(r, id, connected).pairs[j]
                == r.pairs[j],
        r.wf() ==> connect_step(r, id, connected).wf(),
{
    if r.wf() && connected {
        assert(PairModel::init().wf()) by {
            assert(Seq::<u8>::empty() + Seq::<u8>::empty() =~= Seq::<u8>::empty());
        }
        assert forall|j: u64| connect_step(r, id, connected).pairs.contains_key(j) implies (
        #[trigger] connect_step(r, id, connected).pairs[j]).wf() by {
            if j != id {
                assert(r.pairs.contains_key(j));
            }
        }
    }
}

/// Concurrent pairs are isolated: an event of one pair moves no other pair
/// and does not touch the listener. Bytes tagged for one pair can only ever
/// appear in that pair's streams.
pub proof fn lemma_pair_isolation(r: RelayModel, id: u64, d: Dir, ev: ReadEvent, j: u64)
    requires
        r.pairs.contains_key(id),
        r.pairs.contains_key(j),
        j != id,
    ensures
        relay_pair_step(r, id, d, ev).pairs[j] == r.pairs[j],
        relay_pair_step(r, id, d, ev).listening == r.listening,
        relay_pair_step(r, id, d, ev).pairs.contains_key(j),
{
}

} // verus!
