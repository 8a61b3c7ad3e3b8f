//! One direction of the relay: a copy loop that reads chunks from a source
//! connection and forwards them unmodified to a destination connection.
//!
//! The copier is a small state machine. The blocking reads and writes happen
//! outside the library; each read result is handed to the machine as a
//! [`ReadOutcome`], and the machine answers with the action the caller must
//! perform: forward the bytes, or tear the pair down and stop.

use vstd::prelude::*;

verus! {

/// The lifecycle of one copy loop: ready to read, waiting for a write of the
/// last chunk to complete, or terminated. `Done` is absorbing.
#[derive(Clone, Copy, PartialEq, Eq, Structural, Debug)]
pub enum Phase {
    Ready,
    Writing,
    Done,
}

/// Mathematical model of one copier: its phase, every byte read from the
/// source so far, every byte written to the destination so far, and the bytes
/// of the last chunk read but not yet written.
#[verifier::ext_equal]
pub struct CopierModel {
    pub phase: Phase,
    pub read: Seq<u8>,
    pub written: Seq<u8>,
    pub pending: Seq<u8>,
}

impl CopierModel {
    /// A copier that has not yet read anything.
    pub open spec fn init() -> CopierModel {
        CopierModel {
            phase: Phase::Ready,
            read: Seq::empty(),
            written: Seq::empty(),
            pending: Seq::empty(),
        }
    }

    /// Everything read has either been written already or is the chunk
    /// currently being written: the copier never reframes, drops or invents
    /// bytes.
    pub open spec fn wf(self) -> bool {
        &&& self.read == self.written + self.pending
        &&& (self.phase == Phase::Ready ==> self.pending == Seq::<u8>::empty())
    }
}

/// What one blocking read of the source connection produced: a chunk of
/// bytes, a clean end of stream, or a read error.
#[derive(Debug)]
pub enum ReadOutcome {
    Bytes(Vec<u8>),
    End,
    Failed,
}

/// Spec-level image of a [`ReadOutcome`].
pub enum ReadEvent {
    Chunk(Seq<u8>),
    End,
    Failed,
}

impl View for ReadOutcome {
    type V = ReadEvent;

    open spec fn view(&self) -> ReadEvent {
        match self {
            ReadOutcome::Bytes(v) => ReadEvent::Chunk(v@),
            ReadOutcome::End => ReadEvent::End,
            ReadOutcome::Failed => ReadEvent::Failed,
        }
    }
}

/// What the copy loop must do next after a read: write these bytes to the
/// destination, or shut both connections of the pair down and stop.
#[derive(Debug)]
pub enum CopyAction {
    Forward(Vec<u8>),
    Teardown,
}

/// Spec-level image of a [`CopyAction`].
pub enum ActionModel {
    Forward(Seq<u8>),
    Teardown,
}

impl View for CopyAction {
    type V = ActionModel;

    open spec fn view(&self) -> ActionModel {
        match self {
            CopyAction::Forward(v) => ActionModel::Forward(v@),
            CopyAction::Teardown => ActionModel::Teardown,
        }
    }
}

/// What the copy loop must do after reporting a write result: go back to
/// reading, or shut both connections down and stop.
#[derive(Clone, Copy, PartialEq, Eq, Structural, Debug)]
pub enum WriteFollowUp {
    ReadAgain,
    Teardown,
}

/// A read result that terminates the loop: end of stream, a read error, or a
/// zero-byte read, which the blocking stream contract reserves for end of
/// stream.
pub open spec fn ends_stream(ev: ReadEvent) -> bool {
    match ev {
        ReadEvent::Chunk(b) => b.len() == 0,
        ReadEvent::End => true,
        ReadEvent::Failed => true,
    }
}

/// How a read result moves the copier model forward: a nonempty chunk is
/// recorded as read and becomes the pending write; anything else terminates.
pub open spec fn read_step(m: CopierModel, ev: ReadEvent) -> CopierModel {
    if ends_stream(ev) {
        CopierModel { phase: Phase::Done, ..m }
    } else {
        match ev {
            ReadEvent::Chunk(b) => CopierModel {
                phase: Phase::Writing,
                read: m.read + b,
                written: m.written,
                pending: b,
            },
            _ => m,
        }
    }
}

/// The action a read result demands: forward exactly the bytes read, in
/// order, or tear the pair down.
pub open spec fn read_action(ev: ReadEvent) -> ActionModel {
    if ends_stream(ev) {
        ActionModel::Teardown
    } else {
        match ev {
            ReadEvent::Chunk(b) => ActionModel::Forward(b),
            _ => ActionModel::Teardown,
        }
    }
}

/// How a write result moves the copier model forward: a completed write
/// commits the pending chunk; a failed write terminates.
pub open spec fn write_step(m: CopierModel, ok: bool) -> CopierModel {
    if ok {
        CopierModel {
            phase: Phase::Ready,
            read: m.read,
            written: m.written + m.pending,
            pending: Seq::empty(),
        }
    } else {
        CopierModel { phase: Phase::Done, ..m }
    }
}

/// The follow-up a write result demands.
pub open spec fn write_follow_up(ok: bool) -> WriteFollowUp {
    if ok {
        WriteFollowUp::ReadAgain
    } else {
        WriteFollowUp::Teardown
    }
}

/// The model after reading the given chunks one by one, each write
/// completing, starting from `m`.
pub open spec fn relay_rounds(m: CopierModel, chunks: Seq<Seq<u8>>) -> CopierModel
    decreases chunks.len(),
{
    if chunks.len() == 0 {
        m
    } else {
        relay_rounds(
            write_step(read_step(m, ReadEvent::Chunk(chunks.first())), true),
            chunks.drop_first(),
        )
    }
}

/// Byte fidelity: a copier that reads a stream chunk by chunk, every write
/// completing, writes to the destination exactly the bytes it read from the
/// source, in order, unmodified. Chunks are nonempty, as every read result
/// that carries data is; a zero-byte read means end of stream.
pub proof fn lemma_byte_fidelity(m: CopierModel, chunks: Seq<Seq<u8>>)
    requires
        m.wf(),
        m.phase == Phase::Ready,
        forall|i: int| 0 <= i < chunks.len() ==> #[trigger] chunks[i].len() > 0,
    ensures
        relay_rounds(m, chunks).wf(),
        relay_rounds(m, chunks).phase == Phase::Ready,
        relay_rounds(m, chunks).written == m.written + chunks.flatten(),
        relay_rounds(m, chunks).read == m.read + chunks.flatten(),
    decreases chunks.len(),
{
    broadcast use vstd::seq::Seq::add_empty_right;

    if chunks.len() == 0 {
        assert(chunks.flatten() == Seq::<u8>::empty());
    } else {
        let b = chunks.first();
        let m1 = write_step(read_step(m, ReadEvent::Chunk(b)), true);
        assert(m1.written == m.written + b);
        assert(m1.read == m.read + b);
        assert(m1.wf());
        lemma_byte_fidelity(m1, chunks.drop_first());
        assert(chunks.flatten() == b + chunks.drop_first().flatten());
        assert((m.written + b) + chunks.drop_first().flatten() == m.written + chunks.flatten())
            by {
            assert((m.written + b) + chunks.drop_first().flatten() =~= m.written + (
            b + chunks.drop_first().flatten()));
        }
        assert((m.read + b) + chunks.drop_first().flatten() == m.read + chunks.flatten()) by {
            assert((m.read + b) + chunks.drop_first().flatten() =~= m.read + (b
                + chunks.drop_first().flatten()));
        }
    }
}

/// Byte fidelity for a whole session: from a fresh copier, the destination
/// receives exactly the concatenation of the chunks the source delivered, and
/// the end of the source stream terminates the copier with nothing withheld.
pub proof fn lemma_session_byte_fidelity(chunks: Seq<Seq<u8>>)
    requires
        forall|i: int| 0 <= i < chunks.len() ==> #[trigger] chunks[i].len() > 0,
    ensures
        relay_rounds(CopierModel::init(), chunks).written == chunks.flatten(),
        relay_rounds(CopierModel::init(), chunks).read == chunks.flatten(),
        read_step(relay_rounds(CopierModel::init(), chunks), ReadEvent::End).phase == Phase::Done,
        read_step(relay_rounds(CopierModel::init(), chunks), ReadEvent::End).written
            == chunks.flatten(),
{
    lemma_byte_fidelity(CopierModel::init(), chunks);
    assert(Seq::<u8>::empty() + chunks.flatten() =~= chunks.flatten());
}

/// One direction's copy state machine. The caller performs the blocking
/// socket operations and feeds their results in; the machine dictates every
/// action, and its ghost model carries the exact byte streams.
pub struct Copier {
    pub phase: Phase,
    pub model: Ghost<CopierModel>,
}

impl View for Copier {
    type V = CopierModel;

    open spec fn view(&self) -> CopierModel {
        self.model@
    }
}

impl Copier {
    /// The exec phase agrees with the model, and the model never loses or
    /// invents bytes.
    pub open spec fn wf(self) -> bool {
        &&& self@.wf()
        &&& self.phase == self@.phase
    }

    /// A fresh copier for a newly paired connection.
    pub fn new() -> (c: Copier)
        ensures
            c.wf(),
            c@ == CopierModel::init(),
    {
        Copier { phase: Phase::Ready, model: Ghost(CopierModel::init()) }
    }

    /// Feed in the result of one blocking read of the source. A nonempty
    /// chunk must be forwarded to the destination exactly as read; end of
    /// stream, a read error, or a zero-byte read terminates the loop and
    /// demands teardown of both connections.
    pub fn on_read(&mut self, r: ReadOutcome) -> (a: CopyAction)
        requires
            old(self).wf(),
            old(self)@.phase == Phase::Ready,
        ensures
            final(self).wf(),
            final(self)@ == read_step(old(self)@, r@),
            a@ == read_action(r@),
    {
        let ghost m0 = self.model@;
        let ghost ev = r@;
        match r {
            ReadOutcome::Bytes(v) => {
                if v.len() == 0 {
                    self.phase = Phase::Done;
                    self.model = Ghost(read_step(m0, ev));
                    CopyAction::Teardown
                } else {
                    self.phase = Phase::Writing;
                    self.model = Ghost(read_step(m0, ev));
                    proof {
                        assert(m0.written + Seq::<u8>::empty() =~= m0.written);
                        assert(m0.read + v@ == m0.written + v@);
                    }
                    CopyAction::Forward(v)
                }
            },
            ReadOutcome::End => {
                self.phase = Phase::Done;
                self.model = Ghost(read_step(m0, ev));
                CopyAction::Teardown
            },
            ReadOutcome::Failed => {
                self.phase = Phase::Done;
                self.model = Ghost(read_step(m0, ev));
                CopyAction::Teardown
            },
        }
    }

    /// Feed in the result of writing the last chunk to the destination. On
    /// success the loop reads again; a write error terminates the loop and
    /// demands teardown of both connections.
    pub fn on_written(&mut self, ok: bool) -> (f: WriteFollowUp)
        requires
            old(self).wf(),
            old(self)@.phase == Phase::Writing,
        ensures
            final(self).wf(),
            final(self)@ == write_step(old(self)@, ok),
            f == write_follow_up(ok),
    {
        let ghost m0 = self.model@;
        if ok {
            self.phase = Phase::Ready;
            self.model = Ghost(write_step(m0, true));
            proof {
                assert((m0.written + m0.pending) + Seq::<u8>::empty() =~= m0.written + m0.pending);
            }
            WriteFollowUp::ReadAgain
        } else {
            self.phase = Phase::Done;
            self.model = Ghost(write_step(m0, false));
            WriteFollowUp::Teardown
        }
    }

    /// Whether this copier has terminated.
    pub fn is_done(&self) -> (b: bool)
        requires
            self.wf(),
        ensures
            b == (self@.phase == Phase::Done),
    {
        self.phase == Phase::Done
    }
}

} // verus!
