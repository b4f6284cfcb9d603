//! The chunked file transfer: progress accounting for the read/write loop
//! and the ordered four-step channel shutdown, modelled as a state machine.
//!
//! The driver owns the local file and the remote-copy channel; this module
//! owns the loop's decisions. Each phase names the one outside step the
//! driver must perform next (read a chunk, write it, or one of the four
//! shutdown steps); the driver reports the step's outcome and the machine
//! advances, keeping the running byte counter that the progress observer
//! reads after every chunk.

use vstd::prelude::*;

verus! {

/// Fixed size of one transfer chunk, in bytes.
pub const CHUNK_SIZE: u64 = 8192;

/// One step of the transfer that can fail.
#[derive(Clone, Copy, PartialEq, Eq, Structural, Debug)]
pub enum TransferStep {
    /// Reading a chunk from the local file.
    ReadChunk,
    /// Writing a chunk to the channel.
    WriteChunk,
    /// Signalling end-of-file on the channel.
    SendEof,
    /// Waiting for the remote side to acknowledge end-of-file.
    WaitEof,
    /// Closing the channel.
    CloseChannel,
    /// Waiting for the remote side to acknowledge the close.
    WaitClose,
}

/// Where the transfer stands.
#[derive(Clone, Copy, PartialEq, Eq, Structural, Debug)]
pub enum TransferPhase {
    /// Waiting for the next chunk read from the local file.
    Reading,
    /// Waiting for a chunk of `len` bytes to be written to the channel.
    Writing { len: u64 },
    /// Waiting for end-of-file to be signalled on the channel.
    SendingEof,
    /// Waiting for the remote end-of-file acknowledgement.
    AwaitingEof,
    /// Waiting for the channel to be closed.
    Closing,
    /// Waiting for the remote close acknowledgement.
    AwaitingClose,
    /// Every byte was streamed and the shutdown completed; terminal.
    Complete,
    /// A step failed; the transfer is aborted. Terminal, and the failing
    /// step is carried so the failure is surfaced, never swallowed.
    Failed { during: TransferStep },
}

/// The one outside step the driver must perform in a given phase.
#[derive(Clone, Copy, PartialEq, Eq, Structural, Debug)]
pub enum TransferAction {
    /// Read up to [`CHUNK_SIZE`] bytes from the local file.
    ReadChunk,
    /// Write the `len` bytes just read to the channel, in full.
    WriteChunk { len: u64 },
    /// Signal end-of-file on the channel.
    SendEof,
    /// Wait for the remote end-of-file acknowledgement.
    WaitEof,
    /// Close the channel.
    CloseChannel,
    /// Wait for the remote close acknowledgement.
    WaitClose,
    /// Report the transfer as completed.
    ReportComplete,
    /// Report the transfer as failed at the given step.
    ReportFailure { during: TransferStep },
}

/// Mathematical model of the transfer machine.
pub ghost struct TransferModel {
    /// Declared size of the local file; the remote side expects exactly
    /// this many bytes.
    pub size: int,
    /// Bytes written so far.
    pub transferred: int,
    /// Lengths of the chunks written so far, in order.
    pub chunks: Seq<int>,
    /// Where the transfer stands.
    pub phase: TransferPhase,
}

/// Sum of a sequence of chunk lengths.
pub open spec fn seq_sum(s: Seq<int>) -> int
    decreases s.len(),
{
    if s.len() == 0 {
        0
    } else {
        seq_sum(s.drop_last()) + s.last()
    }
}

/// Summing distributes over concatenation.
pub proof fn lemma_seq_sum_concat(a: Seq<int>, b: Seq<int>)
    ensures
        seq_sum(a + b) == seq_sum(a) + seq_sum(b),
    decreases b.len(),
{
    if b.len() == 0 {
        assert(a + b =~= a);
    } else {
        lemma_seq_sum_concat(a, b.drop_last());
        assert((a + b).drop_last() =~= a + b.drop_last());
        assert((a + b).last() == b.last());
    }
}

/// The chunk lengths a file of `size` bytes yields when read
/// [`CHUNK_SIZE`] bytes at a time: full chunks, then the remainder.
pub open spec fn spec_chunk_plan(size: int) -> Seq<int>
    decreases size,
{
    if size <= 0 {
        Seq::<int>::empty()
    } else if size <= CHUNK_SIZE {
        seq![size]
    } else {
        seq![CHUNK_SIZE as int] + spec_chunk_plan(size - CHUNK_SIZE)
    }
}

/// The planned chunks of a file cover it exactly: their lengths sum to the
/// file's size, every chunk is non-empty and at most [`CHUNK_SIZE`], and an
/// empty file yields no chunk at all.
pub proof fn lemma_chunk_plan_covers(size: int)
    requires
        size >= 0,
    ensures
        seq_sum(spec_chunk_plan(size)) == size,
        forall|i: int|
            0 <= i < spec_chunk_plan(size).len() ==> 0 < #[trigger] spec_chunk_plan(size)[i]
                <= CHUNK_SIZE,
        size == 0 ==> spec_chunk_plan(size).len() == 0,
    decreases size,
{
    let plan = spec_chunk_plan(size);
    if size == 0 {
    } else if size <= CHUNK_SIZE {
        assert(plan.drop_last() =~= Seq::<int>::empty());
        assert(seq_sum(plan) == seq_sum(plan.drop_last()) + plan.last());
    } else {
        lemma_chunk_plan_covers(size - CHUNK_SIZE);
        lemma_seq_sum_concat(seq![CHUNK_SIZE as int], spec_chunk_plan(size - CHUNK_SIZE));
        let head = seq![CHUNK_SIZE as int];
        assert(head.drop_last() =~= Seq::<int>::empty());
        assert(seq_sum(head) == seq_sum(head.drop_last()) + head.last());
        assert(seq_sum(head) == CHUNK_SIZE);
        assert(forall|i: int|
            0 <= i < plan.len() ==> 0 < #[trigger] plan[i] <= CHUNK_SIZE) by {
            let tail = spec_chunk_plan(size - CHUNK_SIZE);
            assert forall|i: int| 0 <= i < plan.len() implies 0 < #[trigger] plan[i]
                <= CHUNK_SIZE by {
                if i > 0 {
                    assert(plan[i] == tail[i - 1]);
                }
            }
        }
    }
}

impl TransferModel {
    /// The machine's invariant: the counter never exceeds the declared
    /// size, it always equals the sum of the chunks written, every written
    /// chunk was non-empty and bounded, and a pending write fits in what
    /// remains of the declared size.
    pub open spec fn inv(self) -> bool {
        &&& 0 <= self.transferred <= self.size
        &&& seq_sum(self.chunks) == self.transferred
        &&& forall|i: int| 0 <= i < self.chunks.len() ==> 0 < #[trigger] self.chunks[i]
            <= CHUNK_SIZE
        &&& (self.phase matches TransferPhase::Writing { len } ==> 0 < len <= CHUNK_SIZE
            && self.transferred + len <= self.size)
    }

    /// The transfer is in one of the four shutdown steps.
    pub open spec fn in_shutdown(self) -> bool {
        ||| self.phase is SendingEof
        ||| self.phase is AwaitingEof
        ||| self.phase is Closing
        ||| self.phase is AwaitingClose
    }

    /// The transfer is over, successfully or not.
    pub open spec fn is_terminal(self) -> bool {
        self.phase is Complete || self.phase is Failed
    }
}

/// A fresh machine for a file of `size` declared bytes.
pub open spec fn spec_new_model(size: int) -> TransferModel {
    TransferModel { size, transferred: 0, chunks: Seq::<int>::empty(), phase: TransferPhase::Reading }
}

/// Effect of a local read that returned `n` bytes: zero bytes means
/// end-of-input and moves to shutdown; a chunk that fits the declared
/// remainder becomes a pending write; anything else (an oversized read, or
/// more bytes than were declared) aborts the transfer.
pub open spec fn spec_read_step(m: TransferModel, n: int) -> TransferModel {
    if !(m.phase is Reading) {
        m
    } else if n == 0 {
        TransferModel { phase: TransferPhase::SendingEof, ..m }
    } else if 0 < n <= CHUNK_SIZE && m.transferred + n <= m.size {
        TransferModel { phase: TransferPhase::Writing { len: n as u64 }, ..m }
    } else {
        TransferModel { phase: TransferPhase::Failed { during: TransferStep::ReadChunk }, ..m }
    }
}

/// Effect of the pending chunk write: on success the counter advances by
/// the chunk's full length and the loop reads again; on failure (any error
/// or short write) the transfer aborts.
pub open spec fn spec_write_step(m: TransferModel, ok: bool) -> TransferModel {
    match m.phase {
        TransferPhase::Writing { len } => {
            if ok {
                TransferModel {
                    transferred: m.transferred + len,
                    chunks: m.chunks.push(len as int),
                    phase: TransferPhase::Reading,
                    ..m
                }
            } else {
                TransferModel { phase: TransferPhase::Failed { during: TransferStep::WriteChunk }, ..m }
            }
        },
        _ => m,
    }
}

/// Effect of one shutdown step: success moves to the next of send-eof,
/// wait-eof, close, wait-close, in that exact order; failure aborts the
/// transfer, naming the step that failed.
pub open spec fn spec_shutdown_step(m: TransferModel, ok: bool) -> TransferModel {
    match m.phase {
        TransferPhase::SendingEof => {
            if ok {
                TransferModel { phase: TransferPhase::AwaitingEof, ..m }
            } else {
                TransferModel { phase: TransferPhase::Failed { during: TransferStep::SendEof }, ..m }
            }
        },
        TransferPhase::AwaitingEof => {
            if ok {
                TransferModel { phase: TransferPhase::Closing, ..m }
            } else {
                TransferModel { phase: TransferPhase::Failed { during: TransferStep::WaitEof }, ..m }
            }
        },
        TransferPhase::Closing => {
            if ok {
                TransferModel { phase: TransferPhase::AwaitingClose, ..m }
            } else {
                TransferModel {
                    phase: TransferPhase::Failed { during: TransferStep::CloseChannel },
                    ..m
                }
            }
        },
        TransferPhase::AwaitingClose => {
            if ok {
                TransferModel { phase: TransferPhase::Complete, ..m }
            } else {
                TransferModel { phase: TransferPhase::Failed { during: TransferStep::WaitClose }, ..m }
            }
        },
        _ => m,
    }
}

/// What the driver must do in a given phase.
pub open spec fn spec_transfer_action(p: TransferPhase) -> TransferAction {
    match p {
        TransferPhase::Reading => TransferAction::ReadChunk,
        TransferPhase::Writing { len } => TransferAction::WriteChunk { len },
        TransferPhase::SendingEof => TransferAction::SendEof,
        TransferPhase::AwaitingEof => TransferAction::WaitEof,
        TransferPhase::Closing => TransferAction::CloseChannel,
        TransferPhase::AwaitingClose => TransferAction::WaitClose,
        TransferPhase::Complete => TransferAction::ReportComplete,
        TransferPhase::Failed { during } => TransferAction::ReportFailure { during },
    }
}

/// The executable transfer machine, driven by the read/write loop.
pub struct TransferMachine {
    /// Declared size of the local file, in bytes.
    pub size: u64,
    /// Bytes written so far; monotonically non-decreasing, bounded by
    /// `size`, reported to the progress observer after every chunk.
    pub transferred: u64,
    /// Where the transfer stands.
    pub phase: TransferPhase,
    /// Lengths of the chunks written so far, in order.
    pub chunks: Ghost<Seq<int>>,
}

impl TransferMachine {
    /// The machine as its mathematical model.
    pub open spec fn model(self) -> TransferModel {
        TransferModel {
            size: self.size as int,
            transferred: self.transferred as int,
            chunks: self.chunks@,
            phase: self.phase,
        }
    }

    /// The machine's invariant.
    pub open spec fn wf(self) -> bool {
        self.model().inv()
    }

    /// Start a transfer of a file whose declared size is `size` bytes.
    pub fn new(size: u64) -> (r: Self)
        ensures
            r.model() == spec_new_model(size as int),
            r.wf(),
    {
        TransferMachine {
            size,
            transferred: 0,
            phase: TransferPhase::Reading,
            chunks: Ghost(Seq::<int>::empty()),
        }
    }

    /// Report the outcome of the read the machine asked for: `n` is the
    /// number of bytes the local file yielded.
    pub fn on_read(&mut self, n: usize)
        requires
            old(self).wf(),
            old(self).phase is Reading,
        ensures
            final(self).model() == spec_read_step(old(self).model(), n as int),
            final(self).wf(),
    {
        let nu = n as u64;
        if nu == 0 {
            self.phase = TransferPhase::SendingEof;
        } else if nu <= CHUNK_SIZE && nu <= self.size - self.transferred {
            self.phase = TransferPhase::Writing { len: nu };
        } else {
            self.phase = TransferPhase::Failed { during: TransferStep::ReadChunk };
        }
    }

    /// Report the outcome of the pending chunk write; `ok` means the chunk
    /// was written in full.
    pub fn on_write_result(&mut self, ok: bool)
        requires
            old(self).wf(),
            old(self).phase is Writing,
        ensures
            final(self).model() == spec_write_step(old(self).model(), ok),
            final(self).wf(),
    {
        if let TransferPhase::Writing { len } = self.phase {
            if ok {
                self.transferred = self.transferred + len;
                proof {
                    let pushed = old(self).chunks@.push(len as int);
                    assert(pushed.drop_last() =~= old(self).chunks@);
                }
                self.chunks = Ghost(self.chunks@.push(len as int));
                self.phase = TransferPhase::Reading;
            } else {
                self.phase = TransferPhase::Failed { during: TransferStep::WriteChunk };
            }
        } else {
            proof {
                assert(false);
            }
        }
    }

    /// Report the outcome of the shutdown step the machine asked for.
    pub fn on_shutdown_result(&mut self, ok: bool)
        requires
            old(self).wf(),
            old(self).model().in_shutdown(),
        ensures
            final(self).model() == spec_shutdown_step(old(self).model(), ok),
            final(self).wf(),
    {
        match self.phase {
            TransferPhase::SendingEof => {
                self.phase = if ok {
                    TransferPhase::AwaitingEof
                } else {
                    TransferPhase::Failed { during: TransferStep::SendEof }
                };
            },
            TransferPhase::AwaitingEof => {
                self.phase = if ok {
                    TransferPhase::Closing
                } else {
                    TransferPhase::Failed { during: TransferStep::WaitEof }
                };
            },
            TransferPhase::Closing => {
                self.phase = if ok {
                    TransferPhase::AwaitingClose
                } else {
                    TransferPhase::Failed { during: TransferStep::CloseChannel }
                };
            },
            TransferPhase::AwaitingClose => {
                self.phase = if ok {
                    TransferPhase::Complete
                } else {
                    TransferPhase::Failed { during: TransferStep::WaitClose }
                };
            },
            _ => {
                proof {
                    assert(false);
                }
            },
        }
    }

    /// What the driver must do next.
    pub fn action(&self) -> (r: TransferAction)
        ensures
            r == spec_transfer_action(self.phase),
    {
        match self.phase {
            TransferPhase::Reading => TransferAction::ReadChunk,
            TransferPhase::Writing { len } => TransferAction::WriteChunk { len },
            TransferPhase::SendingEof => TransferAction::SendEof,
            TransferPhase::AwaitingEof => TransferAction::WaitEof,
            TransferPhase::Closing => TransferAction::CloseChannel,
            TransferPhase::AwaitingClose => TransferAction::WaitClose,
            TransferPhase::Complete => TransferAction::ReportComplete,
            TransferPhase::Failed { during } => TransferAction::ReportFailure { during },
        }
    }

    /// The cumulative byte counter the progress observer reads.
    pub fn progress(&self) -> (r: u64)
        ensures
            r == self.transferred,
    {
        self.transferred
    }

    /// The transfer is over, successfully or not.
    pub fn is_terminal(&self) -> (r: bool)
        ensures
            r == self.model().is_terminal(),
    {
        match self.phase {
            TransferPhase::Complete => true,
            TransferPhase::Failed { .. } => true,
            _ => false,
        }
    }
}

/// The streaming loop run against a well-behaved local file: from `m`,
/// each read yields the smaller of [`CHUNK_SIZE`] and the declared
/// remainder, each write succeeds, and the run stops when the read returns
/// zero bytes.
pub open spec fn spec_planned_run(m: TransferModel) -> TransferModel
    decreases m.size - m.transferred,
{
    if !(m.phase is Reading) || !(0 <= m.transferred <= m.size) {
        m
    } else {
        let rem = m.size - m.transferred;
        if rem == 0 {
            spec_read_step(m, 0)
        } else {
            let n = if rem < CHUNK_SIZE { rem } else { CHUNK_SIZE as int };
            spec_planned_run(spec_write_step(spec_read_step(m, n), true))
        }
    }
}

/// The streaming loop against a well-behaved file writes exactly the
/// planned chunks: their lengths sum to the declared size, the final
/// counter equals that size, and the loop then moves to shutdown. For an
/// empty remainder this is immediate, with no write at all.
pub proof fn lemma_planned_run_covers(m: TransferModel)
    requires
        m.inv(),
        m.phase is Reading,
    ensures
        ({
            let r = spec_planned_run(m);
            &&& r.phase is SendingEof
            &&& r.size == m.size
            &&& r.transferred == m.size
            &&& r.chunks =~= m.chunks + spec_chunk_plan(m.size - m.transferred)
            &&& seq_sum(r.chunks) == m.size
            &&& r.inv()
        }),
    decreases m.size - m.transferred,
{
    let rem = m.size - m.transferred;
    if rem == 0 {
        assert(spec_planned_run(m) == spec_read_step(m, 0));
        assert(m.chunks + spec_chunk_plan(0) =~= m.chunks);
    } else {
        let n = if rem < CHUNK_SIZE { rem } else { CHUNK_SIZE as int };
        let m1 = spec_read_step(m, n);
        let m2 = spec_write_step(m1, true);
        assert(m2.chunks =~= m.chunks.push(n));
        assert(m.chunks.push(n).drop_last() =~= m.chunks);
        assert(seq_sum(m2.chunks) == m.transferred + n);
        assert(m2.inv());
        lemma_planned_run_covers(m2);
        let r = spec_planned_run(m);
        assert(r == spec_planned_run(m2));
        if rem <= CHUNK_SIZE {
            assert(spec_chunk_plan(rem) =~= seq![n]);
            assert(m2.chunks + spec_chunk_plan(m2.size - m2.transferred) =~= m.chunks
                + spec_chunk_plan(rem));
        } else {
            assert(spec_chunk_plan(rem) == seq![CHUNK_SIZE as int] + spec_chunk_plan(
                rem - CHUNK_SIZE,
            ));
            assert(m2.chunks + spec_chunk_plan(m2.size - m2.transferred) =~= m.chunks
                + spec_chunk_plan(rem));
        }
    }
}

/// An empty local file (declared size zero) leads to zero writes: the very
/// first read ends the loop, the counter stays at zero, and the machine
/// proceeds directly to shutdown.
pub proof fn lemma_empty_file_zero_writes()
    ensures
        ({
            let r = spec_planned_run(spec_new_model(0));
            &&& r.phase is SendingEof
            &&& r.transferred == 0
            &&& r.chunks =~= Seq::<int>::empty()
        }),
{
    lemma_planned_run_covers(spec_new_model(0));
    assert(Seq::<int>::empty() + spec_chunk_plan(0) =~= Seq::<int>::empty());
}

/// The shutdown proceeds send-eof, wait-eof, close, wait-close, each
/// exactly once and in that exact order; a failure at any one step moves
/// straight to the failed phase naming that step, whose only action is to
/// report the failure — later steps are never reached and the error is
/// never swallowed. The byte counter is untouched throughout.
pub proof fn lemma_shutdown_order(m: TransferModel)
    requires
        m.phase is SendingEof,
    ensures
        ({
            let m1 = spec_shutdown_step(m, true);
            let m2 = spec_shutdown_step(m1, true);
            let m3 = spec_shutdown_step(m2, true);
            let m4 = spec_shutdown_step(m3, true);
            &&& spec_transfer_action(m.phase) == TransferAction::SendEof
            &&& m1.phase is AwaitingEof && spec_transfer_action(m1.phase)
                == TransferAction::WaitEof
            &&& m2.phase is Closing && spec_transfer_action(m2.phase)
                == TransferAction::CloseChannel
            &&& m3.phase is AwaitingClose && spec_transfer_action(m3.phase)
                == TransferAction::WaitClose
            &&& m4.phase is Complete && spec_transfer_action(m4.phase)
                == TransferAction::ReportComplete
            &&& m4.transferred == m.transferred && m4.chunks == m.chunks && m4.size == m.size
            &&& spec_shutdown_step(m, false).phase == (TransferPhase::Failed {
                during: TransferStep::SendEof,
            })
            &&& spec_shutdown_step(m1, false).phase == (TransferPhase::Failed {
                during: TransferStep::WaitEof,
            })
            &&& spec_shutdown_step(m2, false).phase == (TransferPhase::Failed {
                during: TransferStep::CloseChannel,
            })
            &&& spec_shutdown_step(m3, false).phase == (TransferPhase::Failed {
                during: TransferStep::WaitClose,
            })
            &&& forall|s: TransferStep| spec_transfer_action(
                TransferPhase::Failed { during: s },
            ) == (TransferAction::ReportFailure { during: s })
        }),
{
}

/// Terminal phases absorb every further outcome: a completed or failed
/// transfer never moves again.
pub proof fn lemma_terminal_absorbs(m: TransferModel, n: int, ok: bool)
    requires
        m.is_terminal(),
    ensures
        spec_read_step(m, n) == m,
        spec_write_step(m, ok) == m,
        spec_shutdown_step(m, ok) == m,
{
}

} // verus!
