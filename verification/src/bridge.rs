//! The command channel bridge: the public handle through which a caller
//! submits commands, and the single consumer that processes them strictly
//! in submission order.
//!
//! Submitting a command validates the caller's arguments, appends the
//! command to the queue and hands back a [`Ticket`] naming its single-use
//! response slot. Processing takes the oldest queued command, steps the
//! worker state machine, and either resolves that command's slot at once
//! or suspends until the pending engine operation is reported complete.
//! The engine itself lives outside: each call the worker makes to it is
//! returned as an [`EngineCall`] value, and the completions of its two
//! asynchronous operations are delivered through [`CCInterface::finish_construction`]
//! and [`CCInterface::finish_move`].

use vstd::prelude::*;
use crate::data::{BoardField, BridgeError, FallingPiece, Options, decode_piece,
    piece_from_char, rows_decodable, FIELD_ROWS};
use crate::worker::{CallView, Command, EngineCall, WView, WorkerState, calls_of, init_state,
    lemma_run_snoc, next_state, resolves_now, run, run_calls, state_view};

verus! {

/// Names the single-use response slot of one submitted command: the
/// position of the command in the submission order of its bridge.
#[derive(Clone, Copy, PartialEq, Eq, Structural, Debug)]
pub struct Ticket {
    pub index: usize,
}

/// What one processing step did: the engine call the worker issued, if
/// any, and the ticket it resolved, if the command's response slot could
/// be resolved without waiting for the engine. A ticket acknowledged here
/// always carries the "no direct result" response.
pub struct ProcessStep {
    pub call: Option<EngineCall>,
    pub acknowledged: Option<Ticket>,
}

/// A completed move computation handed back to the caller: the ticket of
/// the `NextMove` command it answers, paired with the engine's outcome.
/// An absent outcome means the engine terminated without producing a move;
/// that is a normal response, not an error. The payload type is opaque to
/// the bridge and carried through untouched.
pub struct MoveReply<M> {
    pub ticket: Ticket,
    pub outcome: Option<M>,
}

/// The bridge: one launched worker, its command queue, and the bookkeeping
/// tying every submitted command to its response slot.
pub struct CCInterface {
    queue: Vec<Command>,
    worker: WorkerState,
    taken: usize,
    closed: bool,
    history: Ghost<Seq<Command>>,
    calls: Ghost<Seq<CallView>>,
    init_needed: Ghost<int>,
}

/// The submission side of two bridge states agrees: same submitted
/// commands, same closed flag, same launch configuration.
pub open spec fn intake_unchanged(pre: CCInterface, post: CCInterface) -> bool {
    &&& post.submitted() == pre.submitted()
    &&& post.is_closed() == pre.is_closed()
    &&& post.init_view() == pre.init_view()
}

/// The worker side of two bridge states agrees: same progress through the
/// queue, same engine calls issued, same worker state.
pub open spec fn progress_unchanged(pre: CCInterface, post: CCInterface) -> bool {
    &&& post.taken_count() == pre.taken_count()
    &&& post.call_log() == pre.call_log()
    &&& post.worker_view() == pre.worker_view()
    &&& post.is_awaiting() == pre.is_awaiting()
    &&& post.awaiting_construction() == pre.awaiting_construction()
    &&& post.awaiting_move() == pre.awaiting_move()
    &&& post.init_view() == pre.init_view()
}

impl CCInterface {
    /// Every command ever submitted through this bridge, in submission
    /// order.
    pub closed spec fn submitted(self) -> Seq<Command> {
        self.history@
    }

    /// How many submitted commands the worker has taken off the queue.
    pub closed spec fn taken_count(self) -> int {
        self.taken as int
    }

    /// Whether the handle was closed; a closed bridge accepts no further
    /// commands but still drains the ones already queued.
    pub closed spec fn is_closed(self) -> bool {
        self.closed
    }

    /// Whether the worker is suspended on an engine operation.
    pub closed spec fn is_awaiting(self) -> bool {
        self.worker is AwaitingConstruction || self.worker is AwaitingMove
    }

    /// Whether the worker is suspended on engine construction.
    pub closed spec fn awaiting_construction(self) -> bool {
        self.worker is AwaitingConstruction
    }

    /// Whether the worker is suspended on a move computation.
    pub closed spec fn awaiting_move(self) -> bool {
        self.worker is AwaitingMove
    }

    /// The worker's command-level state.
    pub closed spec fn worker_view(self) -> WView {
        state_view(self.worker)
    }

    /// Every engine call the worker has issued, in order.
    pub closed spec fn call_log(self) -> Seq<CallView> {
        self.calls@
    }

    /// The state the worker started in.
    pub closed spec fn init_view(self) -> WView {
        WView::Initializing { queued: Seq::empty(), needed: self.init_needed@ }
    }

    /// Whether the response slot of the command at position `i` has been
    /// resolved. Slots resolve in submission order; the only unresolved
    /// slot among the taken commands is the one the worker is currently
    /// suspended on.
    pub open spec fn resolved(self, i: int) -> bool {
        i < self.taken_count() && !(self.is_awaiting() && i == self.taken_count() - 1)
    }

    /// The worker can take another command: it is not suspended on the
    /// engine and the queue is not empty.
    pub open spec fn can_process(self) -> bool {
        !self.is_awaiting() && self.taken_count() < self.submitted().len()
    }

    /// The bridge invariant: commands are queued in submission order, the
    /// worker state and the engine calls issued are exactly what running
    /// the taken prefix of the submitted commands prescribes, and a
    /// suspended worker is suspended on the command it took last.
    pub closed spec fn wf(self) -> bool {
        &&& self.taken <= self.history@.len()
        &&& self.history@.len() <= usize::MAX
        &&& self.queue@ == self.history@.skip(self.taken as int)
        &&& (self.init_needed@ == 2 || self.init_needed@ == 3)
        &&& state_view(self.worker) == run(self.init_view(), self.history@.take(self.taken as int))
        &&& self.calls@ == run_calls(self.init_view(), self.history@.take(self.taken as int))
        &&& match self.worker {
            WorkerState::Initializing { queued, pieces_still_needed } => pieces_still_needed >= 1,
            WorkerState::AwaitingConstruction => self.taken >= 1 && self.history@[self.taken - 1]
                is NewPiece,
            WorkerState::Ready => true,
            WorkerState::AwaitingMove => self.taken >= 1 && self.history@[self.taken - 1]
                is NextMove,
        }
    }

    /// Launches a bridge: an empty queue and a worker buffering opening
    /// pieces, three of them when hold is enabled and two otherwise.
    pub fn launch(options: Options) -> (b: CCInterface)
        ensures
            b.wf(),
            b.submitted() == Seq::<Command>::empty(),
            b.taken_count() == 0,
            b.call_log() == Seq::<CallView>::empty(),
            !b.is_closed(),
            !b.is_awaiting(),
            b.worker_view() == init_state(options.use_hold),
            b.init_view() == init_state(options.use_hold),
    {
        let pieces_still_needed: u32 = if options.use_hold {
            3
        } else {
            2
        };
        let b = CCInterface {
            queue: Vec::new(),
            worker: WorkerState::Initializing { queued: Vec::new(), pieces_still_needed },
            taken: 0,
            closed: false,
            history: Ghost(Seq::empty()),
            calls: Ghost(Seq::empty()),
            init_needed: Ghost(if options.use_hold { 3int } else { 2int }),
        };
        proof {
            assert(b.history@.take(0) =~= Seq::<Command>::empty());
            assert(b.queue@ =~= b.history@.skip(0));
            assert(b.worker_view() =~= init_state(options.use_hold));
        }
        b
    }

    /// Pairs a command with a fresh response slot and appends it to the
    /// queue. Fails only when the handle has been closed; the caller must
    /// be able to tell a dead worker apart from an accepted command.
    fn command(&mut self, c: Command) -> (r: Result<Ticket, BridgeError>)
        requires
            old(self).wf(),
            old(self).submitted().len() < usize::MAX,
        ensures
            final(self).wf(),
            progress_unchanged(*old(self), *final(self)),
            final(self).is_closed() == old(self).is_closed(),
            old(self).is_closed() ==> r == Err::<Ticket, BridgeError>(
                BridgeError::WorkerUnavailable,
            ) && final(self).submitted() == old(self).submitted(),
            !old(self).is_closed() ==> r == Ok::<Ticket, BridgeError>(
                (Ticket { index: old(self).submitted().len() as usize }),
            ) && final(self).submitted() == old(self).submitted().push(c),
    {
        if self.closed {
            return Err(BridgeError::WorkerUnavailable);
        }
        let idx = self.taken + self.queue.len();
        let ghost cg = c;
        self.queue.push(c);
        self.history = Ghost(self.history@.push(cg));
        proof {
            assert(self.queue@ =~= self.history@.skip(self.taken as int));
            assert(self.history@.take(self.taken as int) =~= old(self).history@.take(
                self.taken as int,
            ));
        }
        Ok(Ticket { index: idx })
    }

    /// Submits a field reset. A row of the wrong width fails to decode; a
    /// decodable grid with other than the required number of rows is an
    /// argument error. Both are reported before anything is enqueued. A
    /// valid grid is forwarded verbatim.
    pub fn reset(&mut self, field: Vec<Vec<bool>>, back_to_back: bool, combo: u32) -> (r: Result<
        Ticket,
        BridgeError,
    >)
        requires
            old(self).wf(),
            old(self).submitted().len() < usize::MAX,
        ensures
            final(self).wf(),
            progress_unchanged(*old(self), *final(self)),
            final(self).is_closed() == old(self).is_closed(),
            !rows_decodable(field.deep_view()) ==> r == Err::<Ticket, BridgeError>(
                BridgeError::Decode,
            ) && final(self).submitted() == old(self).submitted(),
            rows_decodable(field.deep_view()) && field@.len() != FIELD_ROWS ==> r == Err::<
                Ticket,
                BridgeError,
            >((BridgeError::Argument { rows: field@.len() as usize })) && final(self).submitted()
                == old(self).submitted(),
            rows_decodable(field.deep_view()) && field@.len() == FIELD_ROWS && old(
                self,
            ).is_closed() ==> r == Err::<Ticket, BridgeError>(BridgeError::WorkerUnavailable)
                && final(self).submitted() == old(self).submitted(),
            rows_decodable(field.deep_view()) && field@.len() == FIELD_ROWS && !old(
                self,
            ).is_closed() ==> r == Ok::<Ticket, BridgeError>(
                (Ticket { index: old(self).submitted().len() as usize }),
            ) && final(self).submitted() == old(self).submitted().push(
                (Command::Reset { field: (BoardField { rows: field }), back_to_back, combo }),
            ),
    {
        match BoardField::from_rows(field) {
            Ok(grid) => self.command(Command::Reset { field: grid, back_to_back, combo }),
            Err(e) => Err(e),
        }
    }

    /// Submits one more upcoming piece, failing if the identifier does not
    /// name one of the seven known pieces.
    pub fn add_next_piece(&mut self, piece: char) -> (r: Result<Ticket, BridgeError>)
        requires
            old(self).wf(),
            old(self).submitted().len() < usize::MAX,
        ensures
            final(self).wf(),
            progress_unchanged(*old(self), *final(self)),
            final(self).is_closed() == old(self).is_closed(),
            piece_from_char(piece) is None ==> r == Err::<Ticket, BridgeError>(BridgeError::Decode)
                && final(self).submitted() == old(self).submitted(),
            piece_from_char(piece) is Some && old(self).is_closed() ==> r == Err::<
                Ticket,
                BridgeError,
            >(BridgeError::WorkerUnavailable) && final(self).submitted() == old(self).submitted(),
            piece_from_char(piece) is Some && !old(self).is_closed() ==> r == Ok::<
                Ticket,
                BridgeError,
            >((Ticket { index: old(self).submitted().len() as usize })) && final(self).submitted()
                == old(self).submitted().push(
                (Command::NewPiece { piece: piece_from_char(piece)->0 }),
            ),
    {
        match decode_piece(piece) {
            Ok(p) => self.command(Command::NewPiece { piece: p }),
            Err(e) => Err(e),
        }
    }

    /// Asks the engine for its next move given the amount of incoming
    /// garbage. The response arrives through the returned ticket once the
    /// command is processed; while the worker is still buffering opening
    /// pieces the command is acknowledged without any effect.
    pub fn next_move(&mut self, incoming_garbage: u32) -> (r: Result<Ticket, BridgeError>)
        requires
            old(self).wf(),
            old(self).submitted().len() < usize::MAX,
        ensures
            final(self).wf(),
            progress_unchanged(*old(self), *final(self)),
            final(self).is_closed() == old(self).is_closed(),
            old(self).is_closed() ==> r == Err::<Ticket, BridgeError>(
                BridgeError::WorkerUnavailable,
            ) && final(self).submitted() == old(self).submitted(),
            !old(self).is_closed() ==> r == Ok::<Ticket, BridgeError>(
                (Ticket { index: old(self).submitted().len() as usize }),
            ) && final(self).submitted() == old(self).submitted().push(
                (Command::NextMove { incoming_garbage }),
            ),
    {
        self.command(Command::NextMove { incoming_garbage })
    }

    /// Submits a placement line the engine should analyze before it makes
    /// further moves.
    pub fn force_analysis_line(&mut self, path: Vec<FallingPiece>) -> (r: Result<
        Ticket,
        BridgeError,
    >)
        requires
            old(self).wf(),
            old(self).submitted().len() < usize::MAX,
        ensures
            final(self).wf(),
            progress_unchanged(*old(self), *final(self)),
            final(self).is_closed() == old(self).is_closed(),
            old(self).is_closed() ==> r == Err::<Ticket, BridgeError>(
                BridgeError::WorkerUnavailable,
            ) && final(self).submitted() == old(self).submitted(),
            !old(self).is_closed() ==> r == Ok::<Ticket, BridgeError>(
                (Ticket { index: old(self).submitted().len() as usize }),
            ) && final(self).submitted() == old(self).submitted().push(
                (Command::ForceAnalysisLine { path }),
            ),
    {
        self.command(Command::ForceAnalysisLine { path })
    }

    /// Closes the handle. No further command is accepted, but the worker
    /// still drains what was submitted before closure.
    pub fn close(&mut self)
        requires
            old(self).wf(),
        ensures
            final(self).wf(),
            final(self).is_closed(),
            final(self).submitted() == old(self).submitted(),
            progress_unchanged(*old(self), *final(self)),
    {
        self.closed = true;
    }

    /// Whether the worker can take another command right now.
    pub fn ready_to_process(&self) -> (r: bool)
        requires
            self.wf(),
        ensures
            r == self.can_process(),
    {
        let awaiting = match self.worker {
            WorkerState::AwaitingConstruction => true,
            WorkerState::AwaitingMove => true,
            _ => false,
        };
        !awaiting && self.queue.len() > 0
    }

    /// How many submitted commands the worker has not taken yet.
    pub fn pending_commands(&self) -> (n: usize)
        requires
            self.wf(),
        ensures
            n as int == self.submitted().len() - self.taken_count(),
    {
        self.queue.len()
    }

    /// Takes the oldest queued command and interprets it against the
    /// current worker state. The command's effect is exactly one step of
    /// the state machine: its engine call, if it causes one, is returned,
    /// and its response slot is resolved at once unless the step suspends
    /// the worker on an engine operation (constructing the engine, or
    /// computing a move).
    pub fn process_next(&mut self) -> (step: ProcessStep)
        requires
            old(self).wf(),
            old(self).can_process(),
        ensures
            final(self).wf(),
            intake_unchanged(*old(self), *final(self)),
            final(self).taken_count() == old(self).taken_count() + 1,
            ({
                let w = old(self).worker_view();
                let c = old(self).submitted()[old(self).taken_count()];
                &&& final(self).worker_view() == next_state(w, c)
                &&& final(self).call_log() == old(self).call_log() + calls_of(w, c)
                &&& (step.call matches Some(ec) ==> calls_of(w, c) == seq![ec@])
                &&& (step.call is None ==> calls_of(w, c) == Seq::<CallView>::empty())
                &&& (resolves_now(w, c) ==> step.acknowledged == Some::<Ticket>(
                    (Ticket { index: old(self).taken_count() as usize }),
                ))
                &&& (!resolves_now(w, c) ==> step.acknowledged is None)
                &&& (forall|i: int| final(self).resolved(i) <==> (old(self).resolved(i) || (
                resolves_now(w, c) && i == old(self).taken_count())))
                &&& final(self).is_awaiting() == !resolves_now(w, c)
                &&& final(self).awaiting_construction() == (step.call matches Some(e2)
                    && e2 is Construct)
                &&& final(self).awaiting_move() == (step.call matches Some(e3)
                    && e3 is RequestNextMove)
            }),
    {
        let idx = self.taken;
        let ghost w0 = state_view(self.worker);
        let c = self.queue.remove(0);
        let ghost cg = c;
        let mut w = WorkerState::Ready;
        core::mem::swap(&mut w, &mut self.worker);
        proof {
            assert(w == old(self).worker);
            assert(cg == self.history@[idx as int]);
        }
        let (next, call, ack): (WorkerState, Option<EngineCall>, Option<Ticket>) = match w {
            WorkerState::Initializing { mut queued, pieces_still_needed } => match c {
                Command::NewPiece { piece } => {
                    queued.push(piece);
                    if pieces_still_needed == 1 {
                        (
                            WorkerState::AwaitingConstruction,
                            Some(EngineCall::Construct { next_pieces: queued }),
                            None,
                        )
                    } else {
                        (
                            WorkerState::Initializing {
                                queued,
                                pieces_still_needed: pieces_still_needed - 1,
                            },
                            None,
                            Some(Ticket { index: idx }),
                        )
                    }
                },
                _ => (
                    WorkerState::Initializing { queued, pieces_still_needed },
                    None,
                    Some(Ticket { index: idx }),
                ),
            },
            WorkerState::Ready => match c {
                Command::Reset { field, back_to_back, combo } => (
                    WorkerState::Ready,
                    Some(EngineCall::Reset { field, back_to_back, combo }),
                    Some(Ticket { index: idx }),
                ),
                Command::NewPiece { piece } => (
                    WorkerState::Ready,
                    Some(EngineCall::AddNextPiece { piece }),
                    Some(Ticket { index: idx }),
                ),
                Command::NextMove { incoming_garbage } => (
                    WorkerState::AwaitingMove,
                    Some(EngineCall::RequestNextMove { incoming_garbage }),
                    None,
                ),
                Command::ForceAnalysisLine { path } => (
                    WorkerState::Ready,
                    Some(EngineCall::ForceAnalysisLine { path }),
                    Some(Ticket { index: idx }),
                ),
            },
            WorkerState::AwaitingConstruction => {
                proof {
                    assert(false);
                }
                (WorkerState::AwaitingConstruction, None, None)
            },
            WorkerState::AwaitingMove => {
                proof {
                    assert(false);
                }
                (WorkerState::AwaitingMove, None, None)
            },
        };
        self.worker = next;
        self.taken = idx + 1;
        self.calls = Ghost(self.calls@ + calls_of(w0, cg));
        proof {
            let i = idx as int;
            let hist = self.history@;
            assert(old(self).queue@.remove(0) =~= hist.skip(i + 1));
            assert(self.queue@ =~= hist.skip(self.taken as int));
            assert(hist.take(i + 1) =~= hist.take(i).push(cg));
            lemma_run_snoc(old(self).init_view(), hist.take(i), cg);
            assert(state_view(self.worker) == next_state(w0, cg));
        }
        ProcessStep { call, acknowledged: ack }
    }

    /// The engine has been constructed: the worker becomes ready and the
    /// response slot of the piece command that triggered construction is
    /// resolved with the "no direct result" response. Its ticket is
    /// returned.
    pub fn finish_construction(&mut self) -> (t: Ticket)
        requires
            old(self).wf(),
            old(self).awaiting_construction(),
        ensures
            final(self).wf(),
            intake_unchanged(*old(self), *final(self)),
            final(self).taken_count() == old(self).taken_count(),
            final(self).call_log() == old(self).call_log(),
            final(self).worker_view() == old(self).worker_view(),
            !final(self).is_awaiting(),
            t.index as int == old(self).taken_count() - 1,
            final(self).resolved(t.index as int),
            forall|i: int| final(self).resolved(i) <==> (old(self).resolved(i) || i == old(
                self,
            ).taken_count() - 1),
    {
        let t = Ticket { index: self.taken - 1 };
        self.worker = WorkerState::Ready;
        t
    }

    /// The engine's move computation has completed with the given outcome:
    /// the worker becomes ready again and the response slot of the move
    /// request it was suspended on is resolved. The outcome reaches that
    /// slot untouched; an absent outcome means the engine terminated
    /// without a move, which is a normal response, not an error.
    pub fn finish_move<M>(&mut self, outcome: Option<M>) -> (r: MoveReply<M>)
        requires
            old(self).wf(),
            old(self).awaiting_move(),
        ensures
            final(self).wf(),
            intake_unchanged(*old(self), *final(self)),
            final(self).taken_count() == old(self).taken_count(),
            final(self).call_log() == old(self).call_log(),
            final(self).worker_view() == old(self).worker_view(),
            !final(self).is_awaiting(),
            r.ticket.index as int == old(self).taken_count() - 1,
            final(self).resolved(r.ticket.index as int),
            forall|i: int| final(self).resolved(i) <==> (old(self).resolved(i) || i == old(
                self,
            ).taken_count() - 1),
            r.outcome == outcome,
    {
        let t = Ticket { index: self.taken - 1 };
        self.worker = WorkerState::Ready;
        MoveReply { ticket: t, outcome }
    }
}

/// Effects follow submission order: in every reachable bridge state, the
/// worker's state and the full sequence of engine calls issued so far are
/// exactly the result of running the taken prefix of the submitted
/// commands, one at a time, in the order they were submitted.
pub proof fn lemma_effects_follow_submission_order(b: CCInterface)
    requires
        b.wf(),
    ensures
        b.worker_view() == run(b.init_view(), b.submitted().take(b.taken_count())),
        b.call_log() == run_calls(b.init_view(), b.submitted().take(b.taken_count())),
{
}

/// A suspended worker processes nothing further: while an engine
/// operation is in flight, no queued command can be taken, the suspended
/// command's response slot is still unresolved, and every earlier slot is
/// already resolved. In particular, of two back-to-back move requests the
/// second cannot start computing before the first has been answered.
pub proof fn lemma_awaiting_blocks(b: CCInterface)
    requires
        b.wf(),
        b.is_awaiting(),
    ensures
        !b.can_process(),
        b.taken_count() >= 1,
        !b.resolved(b.taken_count() - 1),
        forall|i: int| 0 <= i < b.taken_count() - 1 ==> b.resolved(i),
{
}

/// Nothing is silently lost: once the worker has drained the queue and no
/// engine operation is in flight, every command ever submitted — including
/// the ones still queued at the moment the handle was closed — has had its
/// response slot resolved.
pub proof fn lemma_drained_all_resolved(b: CCInterface)
    requires
        b.wf(),
        !b.is_awaiting(),
        b.taken_count() == b.submitted().len(),
    ensures
        forall|i: int| 0 <= i < b.submitted().len() ==> b.resolved(i),
{
}

} // verus!
